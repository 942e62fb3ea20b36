//! Text building blocks shared by the statement templates: decimal rendering
//! of placeholder numbers, list joining, and counting of placeholder markers.

use vstd::prelude::*;

verus! {

/// Number of occurrences of the character `c` in `s`.
pub open spec fn count_char(s: Seq<char>, c: char) -> nat
    decreases s.len(),
{
    if s.len() == 0 {
        0
    } else {
        count_char(s.drop_last(), c) + if s.last() == c {
            1nat
        } else {
            0nat
        }
    }
}

/// A piece of text that holds no placeholder marker `$`.
pub open spec fn marker_free(s: Seq<char>) -> bool {
    count_char(s, '$') == 0
}

/// The decimal digit `d` (`d <= 9`) as a character.
pub open spec fn digit_char(d: nat) -> char {
    if d == 0 {
        '0'
    } else if d == 1 {
        '1'
    } else if d == 2 {
        '2'
    } else if d == 3 {
        '3'
    } else if d == 4 {
        '4'
    } else if d == 5 {
        '5'
    } else if d == 6 {
        '6'
    } else if d == 7 {
        '7'
    } else if d == 8 {
        '8'
    } else {
        '9'
    }
}

/// The decimal rendering of `n`, most significant digit first.
pub open spec fn dec_digits(n: nat) -> Seq<char>
    decreases n,
{
    if n < 10 {
        seq![digit_char(n)]
    } else {
        dec_digits(n / 10).push(digit_char(n % 10))
    }
}

/// The positional placeholder `$n`.
pub open spec fn placeholder(n: nat) -> Seq<char> {
    seq!['$'] + dec_digits(n)
}

/// The placeholder texts `$start` through `$(start + count - 1)`, in order.
pub open spec fn placeholder_run(start: nat, count: nat) -> Seq<Seq<char>>
    decreases count,
{
    if count == 0 {
        Seq::empty()
    } else {
        placeholder_run(start, (count - 1) as nat).push(placeholder((start + count - 1) as nat))
    }
}

/// The parts joined with `sep` between consecutive parts.
pub open spec fn join(parts: Seq<Seq<char>>, sep: Seq<char>) -> Seq<char>
    decreases parts.len(),
{
    if parts.len() == 0 {
        Seq::empty()
    } else if parts.len() == 1 {
        parts[0]
    } else {
        join(parts.drop_last(), sep) + sep + parts.last()
    }
}

/// The views of a sequence of strings.
pub open spec fn seq_views(parts: Seq<String>) -> Seq<Seq<char>> {
    parts.map_values(|p: String| p@)
}

/// A character that occurs nowhere in `s` is counted zero times.
pub proof fn lemma_count_char_absent(s: Seq<char>, c: char)
    requires
        forall|i: int| 0 <= i < s.len() ==> s[i] != c,
    ensures
        count_char(s, c) == 0,
    decreases s.len(),
{
    if s.len() > 0 {
        assert(forall|i: int| 0 <= i < s.drop_last().len() ==> s.drop_last()[i] != c);
        lemma_count_char_absent(s.drop_last(), c);
    }
}

/// Occurrence counts add up over concatenation.
pub proof fn lemma_count_char_concat(a: Seq<char>, b: Seq<char>, c: char)
    ensures
        count_char(a + b, c) == count_char(a, c) + count_char(b, c),
    decreases b.len(),
{
    if b.len() == 0 {
        assert(a + b =~= a);
        assert(count_char(b, c) == 0);
    } else {
        lemma_count_char_concat(a, b.drop_last(), c);
        assert((a + b).drop_last() =~= a + b.drop_last());
        assert((a + b).last() == b.last());
    }
}

/// Decimal digit text never holds a placeholder marker.
pub proof fn lemma_dec_digits_marker_free(n: nat)
    ensures
        count_char(dec_digits(n), '$') == 0,
    decreases n,
{
    assert(count_char(Seq::<char>::empty(), '$') == 0);
    if n < 10 {
        assert(dec_digits(n).drop_last() =~= Seq::<char>::empty());
        assert(dec_digits(n).last() == digit_char(n));
    } else {
        lemma_dec_digits_marker_free(n / 10);
        assert(dec_digits(n).drop_last() =~= dec_digits(n / 10));
        assert(dec_digits(n).last() == digit_char(n % 10));
    }
}

/// A placeholder holds exactly one `$` marker.
pub proof fn lemma_placeholder_count(n: nat)
    ensures
        count_char(placeholder(n), '$') == 1,
{
    lemma_dec_digits_marker_free(n);
    lemma_count_char_concat(seq!['$'], dec_digits(n), '$');
    assert(count_char(Seq::<char>::empty(), '$') == 0);
    assert(seq!['$'].drop_last() =~= Seq::<char>::empty());
    assert(count_char(seq!['$'], '$') == 1);
}

/// Length and element characterization of a run of placeholders.
pub proof fn lemma_placeholder_run_index(start: nat, count: nat)
    ensures
        placeholder_run(start, count).len() == count,
        forall|j: int|
            0 <= j < count ==> #[trigger] placeholder_run(start, count)[j] == placeholder(
                (start + j) as nat,
            ),
    decreases count,
{
    if count > 0 {
        lemma_placeholder_run_index(start, (count - 1) as nat);
    }
}

/// Each placeholder of a run holds exactly one `$` marker.
pub proof fn lemma_placeholder_run_counts(start: nat, count: nat)
    ensures
        placeholder_run(start, count).len() == count,
        forall|j: int|
            0 <= j < count ==> count_char(#[trigger] placeholder_run(start, count)[j], '$') == 1,
{
    lemma_placeholder_run_index(start, count);
    assert forall|j: int| 0 <= j < count implies count_char(
        placeholder_run(start, count)[j],
        '$',
    ) == 1 by {
        lemma_placeholder_count((start + j) as nat);
    }
}

/// Joining marker-free parts with a marker-free separator yields marker-free
/// text.
pub proof fn lemma_join_count_zero(parts: Seq<Seq<char>>, sep: Seq<char>)
    requires
        count_char(sep, '$') == 0,
        forall|i: int| 0 <= i < parts.len() ==> count_char(#[trigger] parts[i], '$') == 0,
    ensures
        count_char(join(parts, sep), '$') == 0,
    decreases parts.len(),
{
    if parts.len() == 0 {
        assert(count_char(Seq::<char>::empty(), '$') == 0);
    } else if parts.len() == 1 {
        assert(count_char(parts[0], '$') == 0);
    } else {
        lemma_join_count_zero(parts.drop_last(), sep);
        lemma_count_char_concat(join(parts.drop_last(), sep), sep, '$');
        lemma_count_char_concat(join(parts.drop_last(), sep) + sep, parts.last(), '$');
    }
}

/// Joining parts that hold one `$` marker each with a marker-free separator
/// yields one marker per part.
pub proof fn lemma_join_count_one(parts: Seq<Seq<char>>, sep: Seq<char>)
    requires
        count_char(sep, '$') == 0,
        forall|i: int| 0 <= i < parts.len() ==> count_char(#[trigger] parts[i], '$') == 1,
    ensures
        count_char(join(parts, sep), '$') == parts.len(),
    decreases parts.len(),
{
    if parts.len() == 0 {
        assert(count_char(Seq::<char>::empty(), '$') == 0);
    } else if parts.len() == 1 {
        assert(count_char(parts[0], '$') == 1);
    } else {
        lemma_join_count_one(parts.drop_last(), sep);
        lemma_count_char_concat(join(parts.drop_last(), sep), sep, '$');
        lemma_count_char_concat(join(parts.drop_last(), sep) + sep, parts.last(), '$');
    }
}

/// Appends the single decimal digit `d` to `s`.
fn append_digit(s: &mut String, d: usize)
    requires
        d < 10,
    ensures
        final(s)@ == old(s)@ + seq![digit_char(d as nat)],
{
    if d == 0 {
        proof {
            reveal_strlit("0");
            assert("0"@ =~= seq![digit_char(0)]);
        }
        s.append("0");
    } else if d == 1 {
        proof {
            reveal_strlit("1");
            assert("1"@ =~= seq![digit_char(1)]);
        }
        s.append("1");
    } else if d == 2 {
        proof {
            reveal_strlit("2");
            assert("2"@ =~= seq![digit_char(2)]);
        }
        s.append("2");
    } else if d == 3 {
        proof {
            reveal_strlit("3");
            assert("3"@ =~= seq![digit_char(3)]);
        }
        s.append("3");
    } else if d == 4 {
        proof {
            reveal_strlit("4");
            assert("4"@ =~= seq![digit_char(4)]);
        }
        s.append("4");
    } else if d == 5 {
        proof {
            reveal_strlit("5");
            assert("5"@ =~= seq![digit_char(5)]);
        }
        s.append("5");
    } else if d == 6 {
        proof {
            reveal_strlit("6");
            assert("6"@ =~= seq![digit_char(6)]);
        }
        s.append("6");
    } else if d == 7 {
        proof {
            reveal_strlit("7");
            assert("7"@ =~= seq![digit_char(7)]);
        }
        s.append("7");
    } else if d == 8 {
        proof {
            reveal_strlit("8");
            assert("8"@ =~= seq![digit_char(8)]);
        }
        s.append("8");
    } else {
        proof {
            reveal_strlit("9");
            assert("9"@ =~= seq![digit_char(9)]);
        }
        s.append("9");
    }
}

/// Appends the decimal rendering of `n` to `s`.
fn push_dec(s: &mut String, n: usize)
    ensures
        final(s)@ == old(s)@ + dec_digits(n as nat),
    decreases n,
{
    if n >= 10 {
        push_dec(s, n / 10);
        append_digit(s, n % 10);
        proof {
            assert(old(s)@ + dec_digits((n / 10) as nat) + seq![digit_char((n % 10) as nat)]
                =~= old(s)@ + dec_digits(n as nat));
        }
    } else {
        append_digit(s, n);
        proof {
            assert(old(s)@ + seq![digit_char(n as nat)] =~= old(s)@ + dec_digits(n as nat));
        }
    }
}

/// The placeholder text `$n`.
pub fn placeholder_string(n: usize) -> (r: String)
    ensures
        r@ == placeholder(n as nat),
{
    let mut s = String::from_str("$");
    proof {
        reveal_strlit("$");
        assert("$"@ =~= seq!['$']);
    }
    push_dec(&mut s, n);
    proof {
        assert(s@ =~= placeholder(n as nat));
    }
    s
}

/// The placeholder texts `$(after + 1)` through `$(after + count)`, in order.
pub fn placeholder_strings(after: usize, count: usize) -> (r: Vec<String>)
    requires
        after + count <= usize::MAX,
    ensures
        seq_views(r@) == placeholder_run((after + 1) as nat, count as nat),
{
    let mut r: Vec<String> = Vec::new();
    let mut j: usize = 0;
    proof {
        assert(seq_views(r@) =~= placeholder_run((after + 1) as nat, 0));
    }
    while j < count
        invariant
            j <= count,
            after + count <= usize::MAX,
            seq_views(r@) == placeholder_run((after + 1) as nat, j as nat),
        decreases count - j,
    {
        let p = placeholder_string(after + j + 1);
        r.push(p);
        proof {
            assert(seq_views(r@) =~= placeholder_run((after + 1) as nat, j as nat).push(
                placeholder((after + j + 1) as nat),
            ));
            assert(placeholder_run((after + 1) as nat, (j + 1) as nat) == placeholder_run(
                (after + 1) as nat,
                j as nat,
            ).push(placeholder((after + j + 1) as nat)));
        }
        j += 1;
    }
    r
}

/// Joins `parts` with `sep` between consecutive parts.
pub fn join_strings(parts: &Vec<String>, sep: &str) -> (r: String)
    ensures
        r@ == join(seq_views(parts@), sep@),
{
    let mut r = String::new();
    let mut i: usize = 0;
    proof {
        assert(seq_views(parts@).take(0) =~= Seq::<Seq<char>>::empty());
        assert(r@ =~= join(seq_views(parts@).take(0), sep@));
    }
    while i < parts.len()
        invariant
            i <= parts@.len(),
            r@ == join(seq_views(parts@).take(i as int), sep@),
        decreases parts@.len() - i,
    {
        if i > 0 {
            r.append(sep);
        }
        r.append(parts[i].as_str());
        proof {
            let vs = seq_views(parts@);
            assert(vs.take(i as int + 1).drop_last() =~= vs.take(i as int));
            assert(vs.take(i as int + 1).last() == parts@[i as int]@);
            assert(vs.take(i as int + 1).len() == i + 1);
            if i == 0 {
                assert(join(vs.take(1), sep@) == vs.take(1)[0]);
                assert(r@ =~= join(vs.take(1), sep@));
            } else {
                assert(join(vs.take(i as int + 1), sep@) == join(
                    vs.take(i as int + 1).drop_last(),
                    sep@,
                ) + sep@ + vs.take(i as int + 1).last());
            }
        }
        i += 1;
    }
    proof {
        assert(seq_views(parts@).take(parts@.len() as int) =~= seq_views(parts@));
    }
    r
}

} // verus!
