//! Text preparation for the partner display: stripping bracketed markup
//! from incoming text, the mouth animation stages, and the face art.

use vstd::prelude::*;
use vstd::string::StrSliceExecFns;

verus! {

/// What remains of `s` when every span from `<` to the next `>` is
/// removed.  `in_tag` says whether the text starts inside such a span; an
/// unclosed `<` removes the rest of the text.
pub open spec fn strip_tags_spec(s: Seq<char>, in_tag: bool) -> Seq<char>
    decreases s.len(),
{
    if s.len() == 0 {
        Seq::empty()
    } else {
        let c = s[0];
        let rest = s.drop_first();
        if in_tag {
            if c == '>' {
                strip_tags_spec(rest, false)
            } else {
                strip_tags_spec(rest, true)
            }
        } else {
            if c == '<' {
                strip_tags_spec(rest, true)
            } else {
                seq![c] + strip_tags_spec(rest, false)
            }
        }
    }
}

/// Removes every `<...>` span from the text.
pub fn strip_tags(text: &str) -> (r: String)
    ensures
        r@ == strip_tags_spec(text@, false),
{
    let len = text.unicode_len();
    let mut out = String::new();
    let mut in_tag = false;
    let mut i: usize = 0;
    proof {
        assert(text@.skip(0) =~= text@);
        assert(out@ + strip_tags_spec(text@, false) =~= strip_tags_spec(text@, false));
    }
    while i < len
        invariant
            len == text@.len(),
            i <= len,
            strip_tags_spec(text@, false) == out@ + strip_tags_spec(text@.skip(i as int), in_tag),
        decreases len - i,
    {
        let ghost pre = text@.skip(i as int);
        proof {
            assert(pre[0] == text@[i as int]);
            assert(pre.drop_first() =~= text@.skip(i + 1));
        }
        let c = text.get_char(i);
        if in_tag {
            if c == '>' {
                in_tag = false;
            }
        } else {
            if c == '<' {
                in_tag = true;
            } else {
                let piece = text.substring_char(i, i + 1);
                out.append(piece);
                proof {
                    assert(seq![text@[i as int]] =~= text@.subrange(i as int, i + 1));
                }
            }
        }
        i = i + 1;
    }
    proof {
        assert(text@.skip(len as int) =~= Seq::<char>::empty());
        assert(out@ + Seq::<char>::empty() =~= out@);
    }
    out
}

/// The face animation frame after `updates` keystrokes since leaving
/// idle: the mouth opens one stage per keystroke and is fully open at 4,
/// which ends the transition.
#[verifier::allow_in_spec]
pub fn mouth_stage(updates: u32) -> u8
    returns
        (if updates >= 4 {
            4u8
        } else {
            updates as u8
        }),
{
    if updates >= 4 {
        4u8
    } else {
        updates as u8
    }
}

/// The ASCII face drawn while idle and during the wake transition, one
/// line per stage, the mouth opening with the stage.
pub fn face_art(stage: u8) -> (r: &'static str)
    ensures
        stage == 0 ==> r@ == "( ^ _ ^ )"@,
        stage == 1 ==> r@ == "( ^ . ^ )"@,
        stage == 2 ==> r@ == "( ^ o ^ )"@,
        stage == 3 ==> r@ == "( ^ O ^ )"@,
        stage >= 4 ==> r@ == "( ^ D ^ )"@,
{
    match stage {
        0 => "( ^ _ ^ )",
        1 => "( ^ . ^ )",
        2 => "( ^ o ^ )",
        3 => "( ^ O ^ )",
        _ => "( ^ D ^ )",
    }
}

} // verus!
