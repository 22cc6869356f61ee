//! Mapping keystrokes to per-file confirmation decisions.

use vstd::prelude::*;

verus! {

/// The user's answer for one proposed rename.
#[derive(Debug, Clone, Copy, PartialEq, Eq, Structural)]
pub enum Decision {
    Accept,
    Reject,
    Quit,
}

/// Whether a proposal needs confirmation at all: only a rename that
/// changes the file's name is presented; an unchanged name is skipped
/// silently, with no prompt and no rename.
pub fn needs_confirmation(src_name: &String, dst_name: &String) -> (r: bool)
    ensures
        r == (src_name@ != dst_name@),
{
    !(*src_name == *dst_name)
}

/// The byte `y` sends.
pub const KEY_Y: u8 = 121;

/// The byte `Y` sends.
pub const KEY_UPPER_Y: u8 = 89;

/// The byte `n` sends.
pub const KEY_N: u8 = 110;

/// The byte `N` sends.
pub const KEY_UPPER_N: u8 = 78;

/// The byte `q` sends.
pub const KEY_Q: u8 = 113;

/// Map one captured keystroke to a decision. An empty read, `y` or `Y`
/// accept the rename; `n` or `N` reject it; `q` quits the whole batch.
/// Any other input is not understood, and the caller asks again for the
/// same file.
pub fn parse_response(input: &Vec<u8>) -> (r: Option<Decision>)
    ensures
        r == Some(Decision::Accept) <==> (input@ == Seq::<u8>::empty() || input@ == seq![KEY_Y]
            || input@ == seq![KEY_UPPER_Y]),
        r == Some(Decision::Reject) <==> (input@ == seq![KEY_N] || input@ == seq![KEY_UPPER_N]),
        r == Some(Decision::Quit) <==> input@ == seq![KEY_Q],
{
    if input.len() == 0 {
        proof {
            assert(input@ =~= Seq::<u8>::empty());
        }
        return Some(Decision::Accept);
    }
    if input.len() == 1 {
        let b = input[0];
        if b == KEY_Y || b == KEY_UPPER_Y {
            proof {
                if b == KEY_Y {
                    assert(input@ =~= seq![KEY_Y]);
                } else {
                    assert(input@ =~= seq![KEY_UPPER_Y]);
                }
            }
            return Some(Decision::Accept);
        }
        if b == KEY_N || b == KEY_UPPER_N {
            proof {
                if b == KEY_N {
                    assert(input@ =~= seq![KEY_N]);
                } else {
                    assert(input@ =~= seq![KEY_UPPER_N]);
                }
            }
            return Some(Decision::Reject);
        }
        if b == KEY_Q {
            proof {
                assert(input@ =~= seq![KEY_Q]);
            }
            return Some(Decision::Quit);
        }
    }
    None
}

} // verus!
