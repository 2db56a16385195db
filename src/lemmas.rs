//! Facts about what `cat` writes, proved from the definitions it is
//! verified against.
use vstd::prelude::*;
use crate::cat::{
    failure_message, file_output, is_blank, nonblank_count, numbered_line, plain_line, run_stderr,
    run_stdout, Source,
};
use crate::text::views;

verus! {

/// Flattening a non-empty list of pieces ends with its last piece.
proof fn flatten_unfold(pieces: Seq<Seq<char>>)
    requires
        pieces.len() > 0,
    ensures
        pieces.flatten() == pieces.drop_last().flatten() + pieces.last(),
{
    pieces.lemma_flatten_and_flatten_alt_are_equivalent();
    pieces.drop_last().lemma_flatten_and_flatten_alt_are_equivalent();
}

/// Without numbering, a file comes out as its lines, each followed by a
/// newline, whether or not the file ended with one.
pub proof fn lemma_plain_copy(lines: Seq<Seq<char>>)
    ensures
        file_output(false, false, lines) == lines.map_values(|l: Seq<char>| plain_line(l)).flatten(),
    decreases lines.len(),
{
    let pieces = lines.map_values(|l: Seq<char>| plain_line(l));
    if lines.len() == 0 {
        assert(pieces =~= Seq::empty());
    } else {
        lemma_plain_copy(lines.drop_last());
        flatten_unfold(pieces);
        assert(pieces.drop_last() =~= lines.drop_last().map_values(|l: Seq<char>| plain_line(l)));
    }
}

/// With numbering of all lines, the line at 0-based position `i` gets the
/// number `i + 1`, blank lines included.
pub proof fn lemma_every_line_numbered(number_nonblank: bool, lines: Seq<Seq<char>>)
    ensures
        file_output(true, number_nonblank, lines) == Seq::new(
            lines.len(),
            |i: int| numbered_line((i + 1) as nat, lines[i]),
        ).flatten(),
    decreases lines.len(),
{
    let pieces = Seq::new(lines.len(), |i: int| numbered_line((i + 1) as nat, lines[i]));
    if lines.len() == 0 {
        assert(pieces =~= Seq::empty());
    } else {
        let init = lines.drop_last();
        lemma_every_line_numbered(number_nonblank, init);
        flatten_unfold(pieces);
        assert(pieces.drop_last() =~= Seq::new(
            init.len(),
            |i: int| numbered_line((i + 1) as nat, init[i]),
        ));
    }
}

/// With numbering of non-blank lines, a blank line comes out bare and a
/// non-blank line gets one more than the number of non-blank lines before
/// it in its file; the count moves on non-blank lines only.
pub proof fn lemma_nonblank_numbered(lines: Seq<Seq<char>>)
    ensures
        file_output(false, true, lines) == Seq::new(
            lines.len(),
            |i: int|
                if is_blank(lines[i]) {
                    plain_line(lines[i])
                } else {
                    numbered_line(nonblank_count(lines.take(i)) + 1, lines[i])
                },
        ).flatten(),
        forall|i: int|
            0 <= i < lines.len() ==> #[trigger] nonblank_count(lines.take(i + 1)) == nonblank_count(
                lines.take(i),
            ) + if is_blank(lines[i]) {
                0nat
            } else {
                1nat
            },
    decreases lines.len(),
{
    let pieces = Seq::new(
        lines.len(),
        |i: int|
            if is_blank(lines[i]) {
                plain_line(lines[i])
            } else {
                numbered_line(nonblank_count(lines.take(i)) + 1, lines[i])
            },
    );
    assert forall|i: int| 0 <= i < lines.len() implies #[trigger] nonblank_count(
        lines.take(i + 1),
    ) == nonblank_count(lines.take(i)) + if is_blank(lines[i]) {
        0nat
    } else {
        1nat
    } by {
        assert(lines.take(i + 1).drop_last() =~= lines.take(i));
    }
    if lines.len() == 0 {
        assert(pieces =~= Seq::empty());
    } else {
        let init = lines.drop_last();
        lemma_nonblank_numbered(init);
        flatten_unfold(pieces);
        assert forall|i: int| 0 <= i < init.len() implies init.take(i) == lines.take(i) by {
            assert(init.take(i) =~= lines.take(i));
        }
        assert(lines.take(init.len() as int) =~= init);
        assert(pieces.drop_last() =~= Seq::new(
            init.len(),
            |i: int|
                if is_blank(init[i]) {
                    plain_line(init[i])
                } else {
                    numbered_line(nonblank_count(init.take(i)) + 1, init[i])
                },
        ));
    }
}

/// A run over two lists of entries, one after the other, writes what the
/// two runs write, in that order, on each stream.
pub proof fn lemma_run_concat(
    number_lines: bool,
    number_nonblank: bool,
    first: Seq<Source>,
    second: Seq<Source>,
)
    ensures
        run_stdout(number_lines, number_nonblank, first + second) == run_stdout(
            number_lines,
            number_nonblank,
            first,
        ) + run_stdout(number_lines, number_nonblank, second),
        run_stderr(first + second) == run_stderr(first) + run_stderr(second),
    decreases second.len(),
{
    if second.len() == 0 {
        assert(first + second =~= first);
    } else {
        lemma_run_concat(number_lines, number_nonblank, first, second.drop_last());
        assert((first + second).drop_last() =~= first + second.drop_last());
    }
}

/// Every file is numbered on its own: the count of non-blank lines starts
/// again at the top of each file, so two files come out as each would alone.
pub proof fn lemma_files_numbered_apart(
    number_lines: bool,
    number_nonblank: bool,
    a: Vec<String>,
    b: Vec<String>,
)
    ensures
        run_stdout(number_lines, number_nonblank, seq![Source::Lines(a), Source::Lines(b)])
            == file_output(number_lines, number_nonblank, views(a@)) + file_output(
            number_lines,
            number_nonblank,
            views(b@),
        ),
{
    let s = seq![Source::Lines(a), Source::Lines(b)];
    let one = seq![Source::Lines(a)];
    assert(s.drop_last() =~= one);
    assert(one.drop_last() =~= Seq::<Source>::empty());
    assert(one.last() == Source::Lines(a));
    assert(s.last() == Source::Lines(b));
    assert(run_stdout(number_lines, number_nonblank, one) == run_stdout(
        number_lines,
        number_nonblank,
        Seq::<Source>::empty(),
    ) + file_output(number_lines, number_nonblank, views(a@)));
    assert(run_stdout(number_lines, number_nonblank, one) =~= file_output(
        number_lines,
        number_nonblank,
        views(a@),
    ));
}

/// A file that could not be opened leaves the entries before and after it
/// untouched and adds exactly its one report to the error stream.
pub proof fn lemma_unopened_skipped(
    number_lines: bool,
    number_nonblank: bool,
    before: Seq<Source>,
    name: String,
    reason: String,
    after: Seq<Source>,
)
    ensures
        ({
            let all = before + seq![Source::Unopened { name, reason }] + after;
            &&& run_stdout(number_lines, number_nonblank, all) == run_stdout(
                number_lines,
                number_nonblank,
                before,
            ) + run_stdout(number_lines, number_nonblank, after)
            &&& run_stderr(all) == run_stderr(before) + failure_message(name@, reason@) + seq!['\n']
                + run_stderr(after)
        }),
{
    let bad = seq![Source::Unopened { name, reason }];
    lemma_run_concat(number_lines, number_nonblank, before, bad);
    lemma_run_concat(number_lines, number_nonblank, before + bad, after);
    assert(bad.drop_last() =~= Seq::<Source>::empty());
    assert(run_stdout(number_lines, number_nonblank, before) + Seq::<char>::empty() =~= run_stdout(
        number_lines,
        number_nonblank,
        before,
    ));
    assert(bad.last() == Source::Unopened { name, reason });
    assert(run_stderr(bad) == run_stderr(Seq::<Source>::empty()) + failure_message(name@, reason@)
        + seq!['\n']);
    assert(run_stderr(bad) =~= failure_message(name@, reason@) + seq!['\n']);
    assert(run_stdout(number_lines, number_nonblank, bad) == run_stdout(
        number_lines,
        number_nonblank,
        Seq::<Source>::empty(),
    ) + Seq::<char>::empty());
    assert(run_stdout(number_lines, number_nonblank, bad) =~= Seq::<char>::empty());
}

} // verus!
