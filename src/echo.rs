//! `echo`: the words given, separated by single spaces.
use vstd::prelude::*;
use crate::text::{join, views};

verus! {

/// What `echo` writes for `tokens`: the tokens joined by one space, then a
/// newline unless `omit_newline` is set.
pub open spec fn echo_output(tokens: Seq<Seq<char>>, omit_newline: bool) -> Seq<char> {
    if omit_newline {
        join(tokens, seq![' '])
    } else {
        join(tokens, seq![' ']) + seq!['\n']
    }
}

/// The text that `echo` writes for `text`.
pub fn echo(text: &Vec<String>, omit_newline: bool) -> (r: String)
    ensures
        r@ == echo_output(views(text@), omit_newline),
{
    proof {
        reveal_strlit(" ");
        reveal_strlit("\n");
        assert(" "@ =~= seq![' ']);
        assert("\n"@ =~= seq!['\n']);
    }
    let mut r = String::new();
    let mut i: usize = 0;
    while i < text.len()
        invariant
            i <= text@.len(),
            " "@ == seq![' '],
            r@ == join(views(text@.take(i as int)), seq![' ']),
        decreases text@.len() - i,
    {
        let ghost before = views(text@.take(i as int));
        if i > 0 {
            r.append(" ");
        }
        r.append(text[i].as_str());
        i = i + 1;
        proof {
            let now = views(text@.take(i as int));
            assert(now.drop_last() =~= before);
            assert(now.last() == text@[i - 1]@);
            if i == 1 {
                assert(before.len() == 0);
            }
        }
    }
    assert(text@.take(i as int) =~= text@);
    if !omit_newline {
        r.append("\n");
    }
    r
}

} // verus!
