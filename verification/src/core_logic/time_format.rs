use vstd::prelude::*;
use crate::core_logic::clock::{
    TimeOfDay, chrono_format, chrono_parse, chrono_parsed_time, hms_pattern, hms_text,
    lemma_hms_text_injective, whole_second_time_of,
};

verus! {

/// Why a stored time could not be read back: chrono's parse error.
#[derive(Debug)]
pub struct TimeFormatError {
    pub cause: chrono::format::ParseError,
}

/// The characters of an optional stored text.
pub open spec fn text_view(text: Option<String>) -> Option<Seq<char>> {
    match text {
        Some(s) => Some(s@),
        None => None,
    }
}

/// The text under which an optional time is stored: `HH:MM:SS` for a time, nothing for none.
pub fn serialize(time: &Option<TimeOfDay>) -> (res: Option<String>)
    requires
        time matches Some(t) ==> t.wf(),
    ensures
        match *time {
            Some(t) => res matches Some(s) && s@ == hms_text(t),
            None => res is None,
        },
{
    match time {
        Some(t) => {
            let fmt = "%H:%M:%S";
            proof {
                reveal_strlit("%H:%M:%S");
                assert(fmt@ =~= hms_pattern());
            }
            Some(chrono_format(*t, fmt))
        },
        None => None,
    }
}

/// Reads back a stored optional time: nothing stays nothing, a text is parsed with the
/// pattern `%H:%M:%S`.
pub fn deserialize(text: Option<String>) -> (res: Result<Option<TimeOfDay>, TimeFormatError>)
    ensures
        match text {
            None => res matches Ok(None),
            Some(s) => match chrono_parsed_time(s@, hms_pattern()) {
                Some(p) => res matches Ok(Some(t)) && t == (TimeOfDay { secs: p.0, frac: p.1 }),
                None => res is Err,
            },
        },
        res matches Ok(Some(t)) ==> t.wf(),
        forall|t: TimeOfDay|
            t.wf() && t.frac == 0 && text_view(text) == Some(#[trigger] hms_text(t)) ==> (res matches Ok(Some(u)) && u == t),
{
    match text {
        None => Ok(None),
        Some(s) => {
            let fmt = "%H:%M:%S";
            proof {
                reveal_strlit("%H:%M:%S");
                assert(fmt@ =~= hms_pattern());
            }
            let parsed = chrono_parse(s.as_str(), fmt);
            proof {
                assert forall|t: TimeOfDay|
                    t.wf() && t.frac == 0 && s@ == #[trigger] hms_text(t) implies (parsed matches Ok(u) && u == t) by {
                    let w = whole_second_time_of(s@).unwrap();
                    lemma_hms_text_injective(w, t);
                }
            }
            match parsed {
                Ok(t) => Ok(Some(t)),
                Err(cause) => Err(TimeFormatError { cause }),
            }
        },
    }
}

} // verus!
