use vstd::prelude::*;

verus! {

/// Which formatting the host's strip function removes.
#[derive(Copy, Clone, Debug, PartialEq, Eq, Structural)]
pub enum StripMode {
    /// Color codes.
    Colors,
    /// Formatting other than colors: bold, underline and the like.
    Attributes,
    /// All formatting.
    All,
}

impl StripMode {
    /// The host's code for this mode.
    pub fn code(self) -> (r: i32)
        ensures
            self == StripMode::Colors ==> r == 1,
            self == StripMode::Attributes ==> r == 2,
            self == StripMode::All ==> r == 3,
    {
        match self {
            StripMode::Colors => 1,
            StripMode::Attributes => 2,
            StripMode::All => 3,
        }
    }
}

/// The result of a strip, given what the host returned: no text when the formatting was
/// malformed.
pub fn strip_result(stripped: Option<String>) -> (r: Result<String, ()>)
    ensures
        match stripped {
            Some(t) => r matches Ok(s) && s@ == t@,
            None => r is Err,
        },
{
    match stripped {
        Some(t) => Ok(t),
        None => Err(()),
    }
}

/// Puts the result of a strip in place of `string`, given what the host returned; leaves
/// `string` as it was when the formatting was malformed.
pub fn strip_result_in_place(string: &mut String, stripped: Option<String>) -> (r: Result<(), ()>)
    ensures
        match stripped {
            Some(t) => r is Ok && final(string)@ == t@,
            None => r is Err && final(string)@ == old(string)@,
        },
{
    match stripped {
        Some(t) => {
            *string = t;
            Ok(())
        },
        None => Err(()),
    }
}

/// The most arguments that one emitted print event carries; later ones are dropped.
pub const MAX_PRINT_ARGS: usize = 4;

/// The arguments handed to the host for a print event: the first `MAX_PRINT_ARGS` of them.
pub fn print_event_args(arguments: &Vec<String>) -> (r: Vec<String>)
    ensures
        r@.len() == if arguments@.len() < MAX_PRINT_ARGS {
            arguments@.len()
        } else {
            MAX_PRINT_ARGS as nat
        },
        forall|k: int| 0 <= k < r@.len() ==> (#[trigger] r@[k])@ == arguments@[k]@,
{
    let mut out: Vec<String> = Vec::new();
    let mut i: usize = 0;
    while i < arguments.len() && i < MAX_PRINT_ARGS
        invariant
            i <= arguments@.len(),
            i <= MAX_PRINT_ARGS,
            out@.len() == i,
            forall|k: int| 0 <= k < i ==> (#[trigger] out@[k])@ == arguments@[k]@,
        decreases arguments@.len() - i,
    {
        out.push(arguments[i].clone());
        i = i + 1;
    }
    out
}

/// The byte that the host takes for a channel mode character: `None` for a character that is
/// not ASCII, which is refused.
pub fn mode_byte(mode: char) -> (r: Option<u8>)
    ensures
        (mode as u32) < 128 ==> r == Some(mode as u8),
        (mode as u32) >= 128 ==> r is None,
{
    if (mode as u32) < 128 {
        Some(mode as u8)
    } else {
        None
    }
}

/// The sign byte for adding (`+`) or removing (`-`) a mode.
pub fn mode_sign(add: bool) -> (r: u8)
    ensures
        add ==> r == 43,
        !add ==> r == 45,
{
    if add {
        43
    } else {
        45
    }
}

} // verus!
