use vstd::prelude::*;

verus! {

/// A value of one of the host's global preferences.
pub enum GlobalPreferenceValue {
    /// A boolean value.
    Bool(bool),
    /// An integer value.
    Int(i32),
    /// A text value.
    String(String),
}

impl GlobalPreferenceValue {
    /// Reads what the host's preference lookup returned: its result code (1 for text, 2 for an
    /// integer, 3 for a boolean, anything else for an unknown preference), the text it gave,
    /// and the number it gave. `None` for an unknown preference, or for a text result without
    /// text.
    pub fn from_host(code: i32, text: Option<String>, number: i32) -> (r: Option<
        GlobalPreferenceValue,
    >)
        ensures
            code == 1 ==> match text {
                Some(t) => (r matches Some(GlobalPreferenceValue::String(s)) && s@ == t@),
                None => r is None,
            },
            code == 2 ==> (r matches Some(GlobalPreferenceValue::Int(i)) && i == number),
            code == 3 ==> (r matches Some(GlobalPreferenceValue::Bool(b)) && b == (number != 0)),
            (code < 1 || code > 3) ==> r is None,
    {
        match code {
            1 => match text {
                Some(t) => Some(GlobalPreferenceValue::String(t)),
                None => None,
            },
            2 => Some(GlobalPreferenceValue::Int(number)),
            3 => Some(GlobalPreferenceValue::Bool(number != 0)),
            _ => None,
        }
    }
}

} // verus!
