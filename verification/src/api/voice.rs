//! The voice presets.

use crate::json::{json_parsed, parse_json, same_text, Json, JsonView};
use vstd::prelude::*;
use vstd::string::StringExecFns;

verus! {

/// A named voice preset.
#[derive(Clone, Copy, Debug, PartialEq, Eq, Structural)]
pub enum Voice {
    Alloy,
    Ash,
    Ballad,
    Coral,
    Echo,
    Sage,
    Shimmer,
    Verse,
}

impl Voice {
    /// The name that stands for it on the wire.
    pub open spec fn wire_name(self) -> Seq<char> {
        match self {
            Voice::Alloy => "alloy"@,
            Voice::Ash => "ash"@,
            Voice::Ballad => "ballad"@,
            Voice::Coral => "coral"@,
            Voice::Echo => "echo"@,
            Voice::Sage => "sage"@,
            Voice::Shimmer => "shimmer"@,
            Voice::Verse => "verse"@,
        }
    }

    /// The one that a wire name stands for.
    pub open spec fn of_name(name: Seq<char>) -> Option<Voice> {
        if name == "alloy"@ {
            Some(Voice::Alloy)
        } else if name == "ash"@ {
            Some(Voice::Ash)
        } else if name == "ballad"@ {
            Some(Voice::Ballad)
        } else if name == "coral"@ {
            Some(Voice::Coral)
        } else if name == "echo"@ {
            Some(Voice::Echo)
        } else if name == "sage"@ {
            Some(Voice::Sage)
        } else if name == "shimmer"@ {
            Some(Voice::Shimmer)
        } else if name == "verse"@ {
            Some(Voice::Verse)
        } else {
            None
        }
    }

    /// The one that a JSON value names: a string holding a wire name.
    pub open spec fn of_json(value: JsonView) -> Option<Voice> {
        match value {
            JsonView::Str(name) => Voice::of_name(name),
            _ => None,
        }
    }

    /// The JSON value that names it.
    pub open spec fn json(self) -> JsonView {
        JsonView::Str(self.wire_name())
    }

    /// The name that stands for it on the wire.
    pub fn name(&self) -> (name: &'static str)
        ensures
            name@ == self.wire_name(),
    {
        match self {
            Voice::Alloy => "alloy",
            Voice::Ash => "ash",
            Voice::Ballad => "ballad",
            Voice::Coral => "coral",
            Voice::Echo => "echo",
            Voice::Sage => "sage",
            Voice::Shimmer => "shimmer",
            Voice::Verse => "verse",
        }
    }

    /// The one that a wire name stands for, if it stands for any.
    pub fn from_name(name: &str) -> (found: Option<Voice>)
        ensures
            found == Voice::of_name(name@),
    {
        if same_text(name, "alloy") {
            Some(Voice::Alloy)
        } else if same_text(name, "ash") {
            Some(Voice::Ash)
        } else if same_text(name, "ballad") {
            Some(Voice::Ballad)
        } else if same_text(name, "coral") {
            Some(Voice::Coral)
        } else if same_text(name, "echo") {
            Some(Voice::Echo)
        } else if same_text(name, "sage") {
            Some(Voice::Sage)
        } else if same_text(name, "shimmer") {
            Some(Voice::Shimmer)
        } else if same_text(name, "verse") {
            Some(Voice::Verse)
        } else {
            None
        }
    }

    /// States it as JSON.
    pub fn to_json(&self) -> (json: Json)
        ensures
            json@ == self.json(),
    {
        Json::text(self.name())
    }

    /// Reads it from JSON, where the value states one.
    pub fn from_json(json: &Json) -> (found: Option<Voice>)
        ensures
            found == Voice::of_json(json@),
    {
        match json {
            Json::Str(name) => Voice::from_name(name.as_str()),
            _ => None,
        }
    }

    /// Reading the JSON value that names one gives that one back.
    pub proof fn lemma_json_round_trip(it: Voice)
        ensures
            Voice::of_json(it.json()) == Some(it),
    {
        reveal_strlit("alloy");
        reveal_strlit("ash");
        reveal_strlit("ballad");
        reveal_strlit("coral");
        reveal_strlit("echo");
        reveal_strlit("sage");
        reveal_strlit("shimmer");
        reveal_strlit("verse");
        assert("alloy"@.len() == 5 && "alloy"@[0] == 'a');
        assert("ash"@.len() == 3 && "ash"@[0] == 'a');
        assert("ballad"@.len() == 6 && "ballad"@[0] == 'b');
        assert("coral"@.len() == 5 && "coral"@[0] == 'c');
        assert("echo"@.len() == 4 && "echo"@[0] == 'e');
        assert("sage"@.len() == 4 && "sage"@[0] == 's');
        assert("shimmer"@.len() == 7 && "shimmer"@[0] == 's');
        assert("verse"@.len() == 5 && "verse"@[0] == 'v');
    }
}

impl View for Voice {
    type V = Voice;

    open spec fn view(&self) -> Voice {
        *self
    }
}

impl DeepView for Voice {
    type V = Voice;

    open spec fn deep_view(&self) -> Voice {
        *self
    }
}

impl Default for Voice {
    fn default() -> (it: Voice)
        ensures
            it == Voice::Alloy,
    {
        Voice::Alloy
    }
}

/// The text between two double quotes: a JSON string literal, where `name`
/// needs no escape.
pub open spec fn quoted(name: Seq<char>) -> Seq<char> {
    "\""@ + name + "\""@
}

impl Voice {
    /// Reads a voice from its name as a JSON string would hold it: the name is
    /// put between double quotes and read as JSON, so an escape in it counts
    /// for the character it stands for.
    pub fn parse(name: &str) -> (voice: Option<Voice>)
        ensures
            voice == match json_parsed(quoted(name@)) {
                Some(value) => Voice::of_json(value),
                None => None,
            },
    {
        let mut text = String::from_str("\"");
        text.append(name);
        text.append("\"");
        match parse_json(text.as_str()) {
            Some(value) => Voice::from_json(&value),
            None => None,
        }
    }
}

} // verus!
