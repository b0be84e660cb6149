//! Reading what a machine answers when it is asked for its GPUs.

use vstd::prelude::*;
use crate::text::{chars_of, find_line_feed, trimmed};

verus! {

/// The command that asks a machine for its GPUs.
pub const GPU_QUERY_COMMAND: &'static str = "nvidia-smi --query-gpu=uuid --format=csv,noheader";

/// Whether a line of the answer names a GPU: white space aside, it begins
/// with `GPU-`.
pub open spec fn names_gpu(line: Seq<char>) -> bool {
    "GPU-"@.is_prefix_of(crate::text::trim(line))
}

/// How many lines of the answer name a GPU.
pub open spec fn gpus_named(output: Seq<char>) -> nat {
    crate::text::lines(output).filter(|line: Seq<char>| names_gpu(line)).len()
}

fn line_names_gpu(text: &Vec<char>, from: usize, to: usize) -> (r: bool)
    requires
        from <= to <= text@.len(),
    ensures
        r == names_gpu(text@.subrange(from as int, to as int)),
{
    let (start, end) = trimmed(text, from, to);
    let ghost rest = text@.subrange(start as int, end as int);
    proof {
        reveal_strlit("GPU-");
    }
    let r = end - start >= 4 && text[start] == 'G' && text[start + 1] == 'P' && text[start + 2] == 'U'
        && text[start + 3] == '-';
    proof {
        if r {
            assert("GPU-"@ == rest.subrange(0, 4));
        } else if "GPU-"@.is_prefix_of(rest) {
            let head = rest.subrange(0, 4);
            assert(head == "GPU-"@);
            assert(head[0] == text@[start as int] && head[1] == text@[start + 1] && head[2]
                == text@[start + 2] && head[3] == text@[start + 3]);
        }
    }
    r
}

proof fn lemma_first_line_counts(first: Seq<char>, rest: Seq<Seq<char>>)
    ensures
        (seq![first] + rest).filter(|line: Seq<char>| names_gpu(line)).len() == rest.filter(
            |line: Seq<char>| names_gpu(line),
        ).len() + if names_gpu(first) {
            1nat
        } else {
            0nat
        },
{
    let p = |line: Seq<char>| names_gpu(line);
    Seq::filter_distributes_over_add(seq![first], rest, p);
    reveal(Seq::filter);
    assert(seq![first].drop_last() == Seq::<Seq<char>>::empty());
    assert(seq![first].drop_last().filter(p).len() == 0);
}

/// Counts the GPUs that a machine names, one to a line.
pub fn count_gpus(output: &str) -> (r: usize)
    ensures
        r == gpus_named(output@),
{
    let text = chars_of(output);
    let mut count: usize = 0;
    let mut i: usize = 0;
    assert(text@.skip(0) == text@);
    while i < text.len()
        invariant
            i <= text@.len(),
            count <= i,
            text@ == output@,
            gpus_named(output@) == count + gpus_named(text@.skip(i as int)),
        decreases text@.len() - i,
    {
        let ghost rest = text@.skip(i as int);
        let end = find_line_feed(&text, i);
        if end == text.len() {
            proof {
                lemma_first_line_counts(rest, Seq::empty());
                assert(seq![rest] + Seq::<Seq<char>>::empty() == seq![rest]);
                assert(rest == text@.subrange(i as int, end as int));
                reveal(Seq::filter);
            }
            if line_names_gpu(&text, i, end) {
                count += 1;
            }
            i = end;
            assert(text@.skip(end as int) == Seq::<char>::empty());
        } else {
            let stop: usize = if end > i && text[end - 1] == '\r' { end - 1 } else { end };
            proof {
                let line = rest.take(end - i);
                assert(line == text@.subrange(i as int, end as int));
                assert(crate::text::without_carriage_return(line) == text@.subrange(
                    i as int,
                    stop as int,
                ));
                assert(rest.skip(end - i + 1) == text@.skip(end + 1));
                lemma_first_line_counts(
                    crate::text::without_carriage_return(line),
                    crate::text::lines(text@.skip(end + 1)),
                );
            }
            if line_names_gpu(&text, i, stop) {
                count += 1;
            }
            i = end + 1;
        }
    }
    proof {
        assert(text@.skip(i as int) == Seq::<char>::empty());
        reveal(Seq::filter);
    }
    count
}

/// A line of nothing but white space names no GPU.
pub proof fn law_blank_lines_name_no_gpu(line: Seq<char>)
    requires
        crate::text::trim(line).len() == 0,
    ensures
        !names_gpu(line),
{
    reveal_strlit("GPU-");
}

proof fn lemma_line_feed_in_first(a: Seq<char>, b: Seq<char>)
    ensures
        crate::text::first_line_feed(a) <= a.len(),
        crate::text::first_line_feed(a + seq!['\n'] + b) == crate::text::first_line_feed(a),
    decreases a.len(),
{
    let whole = a + seq!['\n'] + b;
    if a.len() > 0 && a[0] != '\n' {
        lemma_line_feed_in_first(a.drop_first(), b);
        assert(whole.drop_first() == a.drop_first() + seq!['\n'] + b);
    }
}

/// Answers add up: where one ends with a line feed, the GPUs it names and
/// those that the rest names are all that the whole names.
pub proof fn law_answers_add_up(first: Seq<char>, rest: Seq<char>)
    ensures
        gpus_named(first + seq!['\n'] + rest) == gpus_named(first + seq!['\n']) + gpus_named(rest),
    decreases first.len(),
{
    let whole = first + seq!['\n'] + rest;
    let part = first + seq!['\n'];
    let nothing = Seq::<char>::empty();
    let n = crate::text::first_line_feed(first) as int;
    lemma_line_feed_in_first(first, rest);
    lemma_line_feed_in_first(first, nothing);
    assert(part + nothing == part);
    let line = crate::text::without_carriage_return(first.take(n));
    assert(whole.take(n) == first.take(n));
    assert(part.take(n) == first.take(n));
    lemma_first_line_counts(line, crate::text::lines(whole.skip(n + 1)));
    lemma_first_line_counts(line, crate::text::lines(part.skip(n + 1)));
    if n == first.len() {
        assert(whole.skip(n + 1) == rest);
        assert(part.skip(n + 1) == nothing);
        reveal(Seq::filter);
    } else {
        let tail = first.skip(n + 1);
        assert(whole.skip(n + 1) == tail + seq!['\n'] + rest);
        assert(part.skip(n + 1) == tail + seq!['\n']);
        law_answers_add_up(tail, rest);
    }
}

/// Whether an answer names a GPU on the line that begins at `p`: after white
/// space, `GPU-` stands at `q`.
pub open spec fn gpu_at(output: Seq<char>, p: int, q: int) -> bool {
    &&& 0 <= p <= q
    &&& q + 4 <= output.len()
    &&& p == 0 || output[p - 1] == '\n'
    &&& forall|i: int|
        p <= i < q ==> crate::text::is_white_space(#[trigger] output[i]) && output[i] != '\n'
    &&& output[q] == 'G'
    &&& output[q + 1] == 'P'
    &&& output[q + 2] == 'U'
    &&& output[q + 3] == '-'
}

/// Whether an answer names a GPU on some line.
pub open spec fn some_gpu_at(output: Seq<char>) -> bool {
    exists|p: int, q: int| gpu_at(output, p, q)
}

proof fn lemma_names_gpu_from(line: Seq<char>, q: int)
    requires
        0 <= q,
        q + 4 <= line.len(),
        forall|i: int| 0 <= i < q ==> crate::text::is_white_space(#[trigger] line[i]),
        line[q] == 'G' && line[q + 1] == 'P' && line[q + 2] == 'U' && line[q + 3] == '-',
    ensures
        names_gpu(line),
{
    reveal_strlit("GPU-");
    let (a, b) = crate::text::law_trim_takes_white_space_away(line);
    if a < q {
        assert(crate::text::is_white_space(line[a]));
    }
    if q < a {
        assert(crate::text::is_white_space(line[q]));
    }
    if b < q + 4 {
        assert(crate::text::is_white_space(line[q + 3]));
    }
    assert("GPU-"@ == line.subrange(a, b).subrange(0, 4));
}

proof fn lemma_names_gpu_place(line: Seq<char>) -> (q: int)
    requires
        names_gpu(line),
    ensures
        0 <= q,
        q + 4 <= line.len(),
        forall|i: int| 0 <= i < q ==> crate::text::is_white_space(#[trigger] line[i]),
        line[q] == 'G' && line[q + 1] == 'P' && line[q + 2] == 'U' && line[q + 3] == '-',
{
    reveal_strlit("GPU-");
    let (a, b) = crate::text::law_trim_takes_white_space_away(line);
    let head = line.subrange(a, b).subrange(0, 4);
    assert(head == "GPU-"@);
    assert(head[0] == line[a] && head[1] == line[a + 1] && head[2] == line[a + 2] && head[3]
        == line[a + 3]);
    a
}

/// A line names a GPU exactly if `GPU-` stands in it after nothing but white
/// space; such a line counts once, any other not at all, and what follows its
/// line feed counts beside it.
pub proof fn law_lines_count_once(line: Seq<char>, rest: Seq<char>)
    requires
        forall|i: int| 0 <= i < line.len() ==> #[trigger] line[i] != '\n',
    ensures
        gpus_named(line) == (if some_gpu_at(line) {
            1nat
        } else {
            0nat
        }),
        gpus_named(line + seq!['\n'] + rest) == gpus_named(rest) + (if some_gpu_at(line) {
            1nat
        } else {
            0nat
        }),
{
    let nothing = Seq::<Seq<char>>::empty();
    crate::text::law_lines_end_at_line_feeds(line, rest);
    let kept = if line.len() > 0 && line[line.len() - 1] == '\r' {
        line.take(line.len() - 1)
    } else {
        line
    };
    reveal(Seq::filter);
    assert(nothing.filter(|l: Seq<char>| names_gpu(l)).len() == 0);
    lemma_first_line_counts(line, nothing);
    assert(seq![line] + nothing == seq![line]);
    lemma_first_line_counts(kept, crate::text::lines(rest));
    if names_gpu(line) {
        let q = lemma_names_gpu_place(line);
        assert(gpu_at(line, 0, q));
        assert(q + 4 <= kept.len());
        lemma_names_gpu_from(kept, q);
    }
    if names_gpu(kept) {
        let q = lemma_names_gpu_place(kept);
        assert forall|i: int| 0 <= i < q implies crate::text::is_white_space(#[trigger] line[i]) by {
            assert(kept[i] == line[i]);
        }
        lemma_names_gpu_from(line, q);
    }
    if some_gpu_at(line) {
        let (p, q) = choose|p: int, q: int| gpu_at(line, p, q);
        if p > 0 {
            assert(line[p - 1] != '\n');
        }
        lemma_names_gpu_from(line, q);
    }
    if line.len() == 0 {
        assert(!some_gpu_at(line));
    }
}

proof fn lemma_gpu_in_parts(line: Seq<char>, rest: Seq<char>)
    requires
        forall|i: int| 0 <= i < line.len() ==> #[trigger] line[i] != '\n',
    ensures
        some_gpu_at(line + seq!['\n'] + rest) <==> some_gpu_at(line) || some_gpu_at(rest),
{
    let whole = line + seq!['\n'] + rest;
    let n = line.len() as int;
    assert(whole[n] == '\n');
    if some_gpu_at(line) {
        let (p, q) = choose|p: int, q: int| gpu_at(line, p, q);
        assert forall|i: int| p <= i < q implies crate::text::is_white_space(#[trigger] whole[i])
            && whole[i] != '\n' by {
            assert(whole[i] == line[i]);
        }
        assert(gpu_at(whole, p, q));
    }
    if some_gpu_at(rest) {
        let (p, q) = choose|p: int, q: int| gpu_at(rest, p, q);
        assert forall|i: int| p + n + 1 <= i < q + n + 1 implies crate::text::is_white_space(
            #[trigger] whole[i],
        ) && whole[i] != '\n' by {
            assert(whole[i] == rest[i - n - 1]);
        }
        assert(p > 0 ==> whole[p + n] == rest[p - 1]);
        assert(gpu_at(whole, p + n + 1, q + n + 1));
    }
    if some_gpu_at(whole) {
        let (p, q) = choose|p: int, q: int| gpu_at(whole, p, q);
        if p <= n {
            if p > 0 {
                assert(whole[p - 1] == line[p - 1]);
            }
            assert(p == 0);
            if q + 4 > n {
                if q > n {
                    assert(whole[n] != '\n');
                }
                assert(n == q || n == q + 1 || n == q + 2 || n == q + 3);
            }
            assert forall|i: int| p <= i < q implies crate::text::is_white_space(#[trigger] line[i])
                && line[i] != '\n' by {
                assert(whole[i] == line[i]);
            }
            assert(gpu_at(line, p, q));
        } else {
            let (x, y) = (p - n - 1, q - n - 1);
            assert forall|i: int| x <= i < y implies crate::text::is_white_space(#[trigger] rest[i])
                && rest[i] != '\n' by {
                assert(whole[i + n + 1] == rest[i]);
            }
            assert(x > 0 ==> whole[p - 1] == rest[x - 1]);
            assert(gpu_at(rest, x, y));
        }
    }
}

/// Some GPU is counted exactly if somewhere in the answer, at the beginning of
/// a line and after nothing but white space, `GPU-` stands.
pub proof fn law_gpus_are_counted_where_they_are_named(output: Seq<char>)
    ensures
        gpus_named(output) > 0 <==> some_gpu_at(output),
    decreases output.len(),
{
    if output.contains('\n') {
        let n = crate::text::first_line_feed(output) as int;
        crate::text::lemma_first_line_feed_place(output);
        if n == output.len() {
            let k = choose|k: int| 0 <= k < output.len() && output[k] == '\n';
            assert(output[k] != '\n');
        }
        let line = output.take(n);
        let rest = output.skip(n + 1);
        assert(output == line + seq!['\n'] + rest);
        assert forall|i: int| 0 <= i < line.len() implies #[trigger] line[i] != '\n' by {
            assert(line[i] == output[i]);
        }
        law_lines_count_once(line, rest);
        lemma_gpu_in_parts(line, rest);
        law_gpus_are_counted_where_they_are_named(rest);
    } else {
        assert forall|i: int| 0 <= i < output.len() implies #[trigger] output[i] != '\n' by {
            if output[i] == '\n' {
                assert(output.contains('\n'));
            }
        }
        law_lines_count_once(output, Seq::empty());
    }
}

/// Counting gives zero exactly if no line begins, after white space, with
/// `GPU-`; of a single line it gives one or zero; and a further line adds one
/// or zero.
pub proof fn law_count_goes_by_lines(
    line: &str,
    rest: &str,
    whole: &str,
    of_line: usize,
    of_rest: usize,
    of_whole: usize,
)
    requires
        call_ensures(count_gpus, (line,), of_line),
        call_ensures(count_gpus, (rest,), of_rest),
        call_ensures(count_gpus, (whole,), of_whole),
    ensures
        of_whole > 0 <==> some_gpu_at(whole@),
        !line@.contains('\n') ==> of_line == (if some_gpu_at(line@) {
            1usize
        } else {
            0usize
        }),
        !line@.contains('\n') && whole@ == line@ + seq!['\n'] + rest@ ==> of_whole == of_line
            + of_rest,
{
    law_gpus_are_counted_where_they_are_named(whole@);
    if !line@.contains('\n') {
        assert forall|i: int| 0 <= i < line@.len() implies #[trigger] line@[i] != '\n' by {
            if line@[i] == '\n' {
                assert(line@.contains('\n'));
            }
        }
        law_lines_count_once(line@, rest@);
    }
}

} // verus!
