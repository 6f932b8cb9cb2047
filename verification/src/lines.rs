//! Entry-point lines and the installation ledger.
//!
//! A package's entry point is the first line of its main script file,
//! trimmed of surrounding whitespace.  The ledger is modelled as the byte
//! contents of the `plugins.inst` file: append-only, one line per install,
//! each line terminated by a newline byte.

use vstd::prelude::*;
use vstd::slice::slice_subrange;
use vstd::slice::slice_to_vec;

verus! {

/// The line terminator the ledger uses.
pub const NEWLINE: u8 = 10;

/// The whitespace bytes that trimming removes: space and the ASCII control
/// whitespace (tab through carriage return).
pub open spec fn is_space(b: u8) -> bool {
    b == 32 || (9 <= b <= 13)
}

/// The bytes before the first newline; the whole sequence when it holds
/// none.
pub open spec fn first_line_of(s: Seq<u8>) -> Seq<u8>
    decreases s.len(),
{
    if s.len() == 0 {
        s
    } else if s[0] == NEWLINE {
        Seq::<u8>::empty()
    } else {
        seq![s[0]] + first_line_of(s.skip(1))
    }
}

/// A sequence without its leading whitespace.
pub open spec fn trim_left(s: Seq<u8>) -> Seq<u8>
    decreases s.len(),
{
    if s.len() == 0 {
        s
    } else if is_space(s[0]) {
        trim_left(s.skip(1))
    } else {
        s
    }
}

/// A sequence without its trailing whitespace.
pub open spec fn trim_right(s: Seq<u8>) -> Seq<u8>
    decreases s.len(),
{
    if s.len() == 0 {
        s
    } else if is_space(s.last()) {
        trim_right(s.drop_last())
    } else {
        s
    }
}

/// A sequence without its surrounding whitespace.
pub open spec fn trim_of(s: Seq<u8>) -> Seq<u8> {
    trim_right(trim_left(s))
}

/// The entry-point record of a file: its first line, trimmed.
pub open spec fn first_line_trimmed(s: Seq<u8>) -> Seq<u8> {
    trim_of(first_line_of(s))
}

/// The ledger after one append: the line followed by a newline.
pub open spec fn ledger_append(ledger: Seq<u8>, line: Seq<u8>) -> Seq<u8> {
    ledger + line + seq![NEWLINE]
}

/// What stands after the last newline of a sequence.
pub open spec fn tail_line(s: Seq<u8>) -> Seq<u8>
    decreases s.len(),
{
    if s.len() == 0 {
        s
    } else if s.last() == NEWLINE {
        Seq::<u8>::empty()
    } else {
        tail_line(s.drop_last()).push(s.last())
    }
}

/// The trailing line of a newline-terminated ledger: what stands between
/// the previous newline and the final one.
pub open spec fn trailing_line(s: Seq<u8>) -> Seq<u8> {
    tail_line(s.drop_last())
}

/// How many newline-terminated lines a ledger holds.
pub open spec fn line_count(s: Seq<u8>) -> nat
    decreases s.len(),
{
    if s.len() == 0 {
        0
    } else {
        (if s.last() == NEWLINE {
            1nat
        } else {
            0nat
        }) + line_count(s.drop_last())
    }
}

/// A well-formed ledger is empty or newline-terminated.
pub open spec fn ledger_wf(s: Seq<u8>) -> bool {
    s.len() == 0 || s.last() == NEWLINE
}

/// A sequence cut at its first newline holds no newline.
proof fn lemma_first_line_no_newline(s: Seq<u8>)
    ensures
        forall|i: int| 0 <= i < first_line_of(s).len() ==> #[trigger] first_line_of(s)[i]
            != NEWLINE,
    decreases s.len(),
{
    if s.len() == 0 {
    } else if s[0] == NEWLINE {
    } else {
        lemma_first_line_no_newline(s.skip(1));
        assert forall|i: int|
            0 <= i < first_line_of(s).len() implies #[trigger] first_line_of(s)[i] != NEWLINE by {
            if i > 0 {
                assert(first_line_of(s)[i] == first_line_of(s.skip(1))[i - 1]);
            }
        }
    }
}

/// Trimming keeps every byte of the sequence it trims.
proof fn lemma_trim_left_sub(s: Seq<u8>)
    ensures
        forall|i: int| 0 <= i < trim_left(s).len() ==> exists|j: int|
            0 <= j < s.len() && #[trigger] trim_left(s)[i] == s[j],
    decreases s.len(),
{
    if s.len() > 0 && is_space(s[0]) {
        lemma_trim_left_sub(s.skip(1));
        assert forall|i: int| 0 <= i < trim_left(s).len() implies exists|j: int|
            0 <= j < s.len() && #[trigger] trim_left(s)[i] == s[j] by {
            let j0 = choose|j0: int| 0 <= j0 < s.skip(1).len() && trim_left(s.skip(1))[i] == s.skip(
                1,
            )[j0];
            assert(s.skip(1)[j0] == s[j0 + 1]);
        }
    }
}

/// Trimming on the right keeps every byte as well.
proof fn lemma_trim_right_sub(s: Seq<u8>)
    ensures
        forall|i: int| 0 <= i < trim_right(s).len() ==> exists|j: int|
            0 <= j < s.len() && #[trigger] trim_right(s)[i] == s[j],
    decreases s.len(),
{
    if s.len() > 0 && is_space(s.last()) {
        lemma_trim_right_sub(s.drop_last());
        assert forall|i: int| 0 <= i < trim_right(s).len() implies exists|j: int|
            0 <= j < s.len() && #[trigger] trim_right(s)[i] == s[j] by {
            let j0 = choose|j0: int|
                0 <= j0 < s.drop_last().len() && trim_right(s.drop_last())[i] == s.drop_last()[j0];
            assert(s.drop_last()[j0] == s[j0]);
        }
    }
}

/// Cutting at the first newline takes everything before it.
proof fn lemma_first_line_split(s: Seq<u8>, k: int)
    requires
        0 <= k < s.len(),
        s[k] == NEWLINE,
        forall|j: int| 0 <= j < k ==> #[trigger] s[j] != NEWLINE,
    ensures
        first_line_of(s) == s.subrange(0, k),
    decreases s.len(),
{
    if k == 0 {
        assert(first_line_of(s) =~= s.subrange(0, 0));
    } else {
        assert(s.skip(1)[k - 1] == NEWLINE);
        assert(forall|j: int| 0 <= j < k - 1 ==> #[trigger] s.skip(1)[j] != NEWLINE);
        lemma_first_line_split(s.skip(1), k - 1);
        assert(first_line_of(s) =~= s.subrange(0, k));
    }
}

/// A sequence without a newline is its own first line.
proof fn lemma_first_line_whole(s: Seq<u8>)
    requires
        forall|j: int| 0 <= j < s.len() ==> #[trigger] s[j] != NEWLINE,
    ensures
        first_line_of(s) == s,
    decreases s.len(),
{
    if s.len() > 0 {
        lemma_first_line_whole(s.skip(1));
        assert(first_line_of(s) =~= s);
    }
}

/// Trimming on the left drops exactly the leading whitespace.
proof fn lemma_trim_left_split(s: Seq<u8>, a: int)
    requires
        0 <= a <= s.len(),
        forall|j: int| 0 <= j < a ==> is_space(#[trigger] s[j]),
        a < s.len() ==> !is_space(s[a]),
    ensures
        trim_left(s) == s.skip(a),
    decreases s.len(),
{
    if a == 0 {
        assert(trim_left(s) =~= s.skip(0));
    } else {
        assert(forall|j: int| 0 <= j < a - 1 ==> is_space(#[trigger] s.skip(1)[j]));
        lemma_trim_left_split(s.skip(1), a - 1);
        assert(trim_left(s) =~= s.skip(a));
    }
}

/// Trimming on the right drops exactly the trailing whitespace.
proof fn lemma_trim_right_split(s: Seq<u8>, b: int)
    requires
        0 <= b <= s.len(),
        forall|j: int| b <= j < s.len() ==> is_space(#[trigger] s[j]),
        b > 0 ==> !is_space(s[b - 1]),
    ensures
        trim_right(s) == s.take(b),
    decreases s.len(),
{
    if b == s.len() {
        assert(trim_right(s) =~= s.take(b));
    } else {
        assert(is_space(s.last()));
        assert(forall|j: int| b <= j < s.drop_last().len() ==> is_space(#[trigger] s.drop_last()[j]));
        lemma_trim_right_split(s.drop_last(), b);
        assert(trim_right(s) =~= s.take(b));
    }
}

/// Whether a byte counts as whitespace for trimming.
pub fn is_space_byte(b: u8) -> (r: bool)
    ensures
        r == is_space(b),
{
    b == 32 || (9 <= b && b <= 13)
}

/// The entry-point record of a file's contents: the bytes of the first
/// line, trimmed of surrounding whitespace.
pub fn read_first_line(contents: &Vec<u8>) -> (r: Vec<u8>)
    ensures
        r@ == first_line_trimmed(contents@),
{
    let n = contents.len();
    let mut k: usize = 0;
    let mut found = false;
    while k < n && !found
        invariant
            0 <= k <= n,
            n == contents@.len(),
            forall|j: int| 0 <= j < k ==> #[trigger] contents@[j] != NEWLINE,
            found ==> k < n && contents@[k as int] == NEWLINE,
        decreases (n - k) as int + (if found { 0int } else { 1int }),
    {
        if contents[k] == NEWLINE {
            found = true;
        } else {
            k = k + 1;
        }
    }
    proof {
        if found {
            lemma_first_line_split(contents@, k as int);
        } else {
            lemma_first_line_whole(contents@);
            assert(first_line_of(contents@) =~= contents@.subrange(0, k as int));
        }
    }
    let ghost line = contents@.subrange(0, k as int);
    let mut a: usize = 0;
    while a < k && is_space_byte(contents[a])
        invariant
            0 <= a <= k <= n,
            n == contents@.len(),
            forall|j: int| 0 <= j < a ==> is_space(#[trigger] contents@[j]),
        decreases k - a,
    {
        a = a + 1;
    }
    let mut b: usize = k;
    while b > a && is_space_byte(contents[b - 1])
        invariant
            a <= b <= k <= n,
            n == contents@.len(),
            forall|j: int| b <= j < k ==> is_space(#[trigger] contents@[j]),
        decreases b,
    {
        b = b - 1;
    }
    let r = slice_to_vec(slice_subrange(contents.as_slice(), a, b));
    proof {
        lemma_trim_left_split(line, a as int);
        assert(line.skip(a as int) =~= contents@.subrange(a as int, k as int));
        let mid = contents@.subrange(a as int, k as int);
        assert(forall|j: int|
            b - a <= j < mid.len() ==> is_space(#[trigger] mid[j]));
        if b > a {
            assert(!is_space(contents@[b - 1]));
            assert(mid[b - a - 1] == contents@[b - 1]);
        }
        lemma_trim_right_split(mid, b - a);
        assert(mid.take(b - a) =~= contents@.subrange(a as int, b as int));
        assert(r@ == first_line_trimmed(contents@));
    }
    r
}

/// Appends one entry-point record to the ledger: the line's bytes followed
/// by a newline.  Nothing is ever removed or deduplicated.
pub fn append_to_plugins_inst(ledger: &mut Vec<u8>, line: &Vec<u8>)
    ensures
        final (ledger)@ == ledger_append(old(ledger)@, line@),
{
    let n = line.len();
    proof {
        assert(ledger@ =~= old(ledger)@ + line@.subrange(0, 0));
    }
    for i in 0..n
        invariant
            n == line@.len(),
            ledger@ == old(ledger)@ + line@.subrange(0, i as int),
    {
        ledger.push(line[i]);
        proof {
            assert(ledger@ =~= old(ledger)@ + line@.subrange(0, i + 1));
        }
    }
    ledger.push(NEWLINE);
    proof {
        assert(line@.subrange(0, n as int) =~= line@);
        assert(ledger@ =~= ledger_append(old(ledger)@, line@));
    }
}

/// An entry-point record holds no newline byte.
pub proof fn lemma_record_no_newline(s: Seq<u8>)
    ensures
        forall|i: int| 0 <= i < first_line_trimmed(s).len() ==> #[trigger] first_line_trimmed(
            s,
        )[i] != NEWLINE,
{
    let fl = first_line_of(s);
    lemma_first_line_no_newline(s);
    lemma_trim_left_sub(fl);
    lemma_trim_right_sub(trim_left(fl));
    assert forall|i: int|
        0 <= i < first_line_trimmed(s).len() implies #[trigger] first_line_trimmed(s)[i]
        != NEWLINE by {
        let j = choose|j: int|
            0 <= j < trim_left(fl).len() && trim_right(trim_left(fl))[i] == trim_left(fl)[j];
        let k = choose|k: int| 0 <= k < fl.len() && trim_left(fl)[j] == fl[k];
    }
}

/// After a well-formed ledger, a newline-free line is the tail.
proof fn lemma_tail_line_append(ledger: Seq<u8>, line: Seq<u8>)
    requires
        ledger_wf(ledger),
        forall|i: int| 0 <= i < line.len() ==> #[trigger] line[i] != NEWLINE,
    ensures
        tail_line(ledger + line) == line,
    decreases line.len(),
{
    if line.len() == 0 {
        assert(ledger + line =~= ledger);
        assert(tail_line(ledger) =~= line);
    } else {
        assert((ledger + line).last() == line.last());
        assert((ledger + line).drop_last() =~= ledger + line.drop_last());
        lemma_tail_line_append(ledger, line.drop_last());
        assert(tail_line(ledger + line) =~= line);
    }
}

/// Law: appending an entry-point record to a well-formed ledger leaves the
/// ledger well formed, with exactly that record as its new trailing line.
pub proof fn lemma_ledger_trailing_line(ledger: Seq<u8>, line: Seq<u8>)
    requires
        ledger_wf(ledger),
        forall|i: int| 0 <= i < line.len() ==> #[trigger] line[i] != NEWLINE,
    ensures
        ledger_wf(ledger_append(ledger, line)),
        trailing_line(ledger_append(ledger, line)) == line,
{
    let l2 = ledger_append(ledger, line);
    assert(l2.last() == NEWLINE);
    assert(l2.drop_last() =~= ledger + line);
    lemma_tail_line_append(ledger, line);
}

/// Bytes without a newline leave the line count unchanged.
proof fn lemma_line_count_no_newline(ledger: Seq<u8>, line: Seq<u8>)
    requires
        forall|i: int| 0 <= i < line.len() ==> #[trigger] line[i] != NEWLINE,
    ensures
        line_count(ledger + line) == line_count(ledger),
    decreases line.len(),
{
    if line.len() == 0 {
        assert(ledger + line =~= ledger);
    } else {
        assert((ledger + line).last() == line.last());
        assert((ledger + line).drop_last() =~= ledger + line.drop_last());
        lemma_line_count_no_newline(ledger, line.drop_last());
    }
}

/// One append adds exactly one line.
pub proof fn lemma_ledger_append_count(ledger: Seq<u8>, line: Seq<u8>)
    requires
        forall|i: int| 0 <= i < line.len() ==> #[trigger] line[i] != NEWLINE,
    ensures
        line_count(ledger_append(ledger, line)) == line_count(ledger) + 1,
{
    let l2 = ledger_append(ledger, line);
    assert(l2.last() == NEWLINE);
    assert(l2.drop_last() =~= ledger + line);
    lemma_line_count_no_newline(ledger, line);
}

/// Law: installing the same package twice is not deduplicated.  Appending
/// the same record twice yields the two records in order, each on its own
/// line, and the line count grows by exactly two.
pub proof fn lemma_ledger_append_twice(ledger: Seq<u8>, line: Seq<u8>)
    requires
        forall|i: int| 0 <= i < line.len() ==> #[trigger] line[i] != NEWLINE,
    ensures
        ledger_append(ledger_append(ledger, line), line) == ledger + line + seq![NEWLINE] + line
            + seq![NEWLINE],
        line_count(ledger_append(ledger_append(ledger, line), line)) == line_count(ledger) + 2,
{
    assert(ledger_append(ledger_append(ledger, line), line) =~= ledger + line + seq![NEWLINE]
        + line + seq![NEWLINE]);
    lemma_ledger_append_count(ledger, line);
    lemma_ledger_append_count(ledger_append(ledger, line), line);
}

} // verus!
