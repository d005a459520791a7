use vstd::prelude::*;
use vstd::string::{StrSliceExecFns, StringExecFns};

verus! {

/// The separator of the password list on the wire.
pub const SEPARATOR: char = ',';

/// Decimal ASCII digits of `n`, most significant first, without leading zeros.
pub open spec fn decimal(n: nat) -> Seq<u8>
    decreases n,
{
    if n < 10 {
        seq![(48 + n) as u8]
    } else {
        decimal(n / 10) + seq![(48 + n % 10) as u8]
    }
}

/// The number that a sequence of ASCII digits denotes.
pub open spec fn digits_value(s: Seq<u8>) -> nat
    decreases s.len(),
{
    if s.len() == 0 {
        0
    } else {
        digits_value(s.drop_last()) * 10 + (s.last() - 48) as nat
    }
}

/// Whether every byte of `s` is an ASCII digit.
pub open spec fn all_digits(s: Seq<u8>) -> bool {
    forall|i: int| 0 <= i < s.len() ==> 48 <= #[trigger] s[i] <= 57
}

/// The views of a list of strings.
pub open spec fn views(list: Seq<String>) -> Seq<Seq<char>> {
    list.map_values(|s: String| s@)
}

/// The items of `list`, with `sep` between each two of them.
pub open spec fn join_with(list: Seq<Seq<char>>, sep: char) -> Seq<char>
    decreases list.len(),
{
    if list.len() == 0 {
        Seq::empty()
    } else if list.len() == 1 {
        list[0]
    } else {
        join_with(list.drop_last(), sep) + seq![sep] + list.last()
    }
}

/// The pieces of `s` between occurrences of `sep`, empty pieces included.
/// There is always at least one piece.
pub open spec fn split_on(s: Seq<char>, sep: char) -> Seq<Seq<char>>
    decreases s.len(),
{
    if s.len() == 0 {
        seq![Seq::empty()]
    } else {
        let pieces = split_on(s.drop_last(), sep);
        if s.last() == sep {
            pieces.push(Seq::empty())
        } else {
            pieces.update(pieces.len() - 1, pieces.last().push(s.last()))
        }
    }
}

/// Whether `c` occurs nowhere in `s`.
pub open spec fn free_of(s: Seq<char>, c: char) -> bool {
    forall|i: int| 0 <= i < s.len() ==> #[trigger] s[i] != c
}

/// The decimal ASCII representation of a device count.
pub fn encode_device_count(n: u8) -> (r: Vec<u8>)
    ensures
        r@ == decimal(n as nat),
{
    proof {
        reveal_with_fuel(decimal, 3);
    }
    if n < 10 {
        vec![48 + n]
    } else if n < 100 {
        assert(n as nat / 10 < 10);
        vec![48 + n / 10, 48 + n % 10]
    } else {
        assert(n as nat / 10 / 10 == n as nat / 100);
        assert(n as nat / 10 >= 10);
        let r = vec![48 + n / 100, 48 + n / 10 % 10, 48 + n % 10];
        assert(r@ =~= decimal(n as nat));
        r
    }
}

/// A device count is written as plain decimal digits, nothing else: every
/// byte is a digit, there is no leading zero, and the digits denote the count.
pub proof fn lemma_decimal_is_plain(n: nat)
    ensures
        decimal(n).len() >= 1,
        all_digits(decimal(n)),
        digits_value(decimal(n)) == n,
        decimal(n)[0] == 48 ==> n == 0,
    decreases n,
{
    if n >= 10 {
        lemma_decimal_is_plain(n / 10);
        let s = decimal(n);
        assert(s.drop_last() =~= decimal(n / 10));
        assert(s[0] == decimal(n / 10)[0]);
    } else {
        assert(digits_value(decimal(n).drop_last()) == 0);
    }
}

/// The password list as text: the passwords with a comma between each two.
pub fn join_passwords(passwords: &Vec<String>) -> (r: String)
    ensures
        r@ == join_with(views(passwords@), SEPARATOR),
{
    let mut r = String::new();
    let mut i: usize = 0;
    while i < passwords.len()
        invariant
            i <= passwords@.len(),
            r@ == join_with(views(passwords@.subrange(0, i as int)), SEPARATOR),
        decreases passwords@.len() - i,
    {
        let ghost before = views(passwords@.subrange(0, i as int));
        let ghost after = views(passwords@.subrange(0, i + 1));
        assert(after.drop_last() =~= before);
        if i > 0 {
            r.append(",");
            proof {
                reveal_strlit(",");
            }
        } else {
            assert(after =~= seq![passwords@[0]@]);
        }
        r.append(passwords[i].as_str());
        i = i + 1;
    }
    assert(passwords@.subrange(0, i as int) =~= passwords@);
    r
}

/// The pieces of a password list's text, split at each comma; empty pieces
/// are kept.
pub fn split_passwords(text: &str) -> (r: Vec<String>)
    ensures
        views(r@) == split_on(text@, SEPARATOR),
{
    let n = text.unicode_len();
    let mut done: Vec<String> = Vec::new();
    let mut start: usize = 0;
    let mut i: usize = 0;
    assert(text@.subrange(0, 0) =~= Seq::<char>::empty());
    assert(views(done@).push(text@.subrange(0, 0)) =~= seq![Seq::<char>::empty()]);
    while i < n
        invariant
            n == text@.len(),
            start <= i <= n,
            views(done@).push(text@.subrange(start as int, i as int)) == split_on(
                text@.subrange(0, i as int),
                SEPARATOR,
            ),
        decreases n - i,
    {
        let c = text.get_char(i);
        let ghost prefix = text@.subrange(0, i + 1);
        assert(prefix.drop_last() =~= text@.subrange(0, i as int));
        if c == SEPARATOR {
            let piece = String::from_str(text.substring_char(start, i));
            let ghost before = views(done@);
            done.push(piece);
            assert(views(done@) =~= before.push(piece@));
            assert(text@.subrange(i + 1, i + 1) =~= Seq::<char>::empty());
            start = i + 1;
        } else {
            assert(text@.subrange(start as int, i + 1) =~= text@.subrange(start as int, i as int).push(c));
        }
        i = i + 1;
    }
    assert(text@.subrange(0, n as int) =~= text@);
    let last = String::from_str(text.substring_char(start, n));
    let ghost before = views(done@);
    done.push(last);
    assert(views(done@) =~= before.push(last@));
    done
}

/// Splitting always yields at least one piece.
proof fn lemma_split_nonempty(s: Seq<char>, sep: char)
    ensures
        split_on(s, sep).len() >= 1,
    decreases s.len(),
{
    if s.len() > 0 {
        lemma_split_nonempty(s.drop_last(), sep);
    }
}

/// Appending text free of the separator extends the last piece.
proof fn lemma_split_extend(x: Seq<char>, b: Seq<char>, sep: char)
    requires
        free_of(b, sep),
    ensures
        ({
            let pieces = split_on(x, sep);
            split_on(x + b, sep) == pieces.update(pieces.len() - 1, pieces.last() + b)
        }),
    decreases b.len(),
{
    lemma_split_nonempty(x, sep);
    let pieces = split_on(x, sep);
    if b.len() == 0 {
        assert(x + b =~= x);
        assert(pieces.last() + b =~= pieces.last());
        assert(pieces.update(pieces.len() - 1, pieces.last() + b) =~= pieces);
    } else {
        let shorter = b.drop_last();
        assert(free_of(shorter, sep)) by {
            assert forall|i: int| 0 <= i < shorter.len() implies shorter[i] != sep by {
                assert(shorter[i] == b[i]);
            }
        };
        lemma_split_extend(x, shorter, sep);
        assert((x + b).drop_last() =~= x + shorter);
        assert((x + b).last() == b[b.len() - 1]);
        assert((pieces.last() + shorter).push(b.last()) =~= pieces.last() + b);
        assert(split_on(x + b, sep) =~= pieces.update(pieces.len() - 1, pieces.last() + b));
    }
}

/// Splitting joined text gives back the list it was joined from, as long as
/// the list is not empty and no item holds the separator. (The empty list
/// joins to the empty text, which splits into one empty piece.)
pub proof fn lemma_split_join(list: Seq<Seq<char>>, sep: char)
    requires
        list.len() >= 1,
        forall|i: int| 0 <= i < list.len() ==> free_of(#[trigger] list[i], sep),
    ensures
        split_on(join_with(list, sep), sep) == list,
    decreases list.len(),
{
    if list.len() == 1 {
        lemma_split_extend(Seq::empty(), list[0], sep);
        assert(Seq::<char>::empty() + list[0] =~= list[0]);
        assert(split_on(Seq::<char>::empty(), sep).update(0, Seq::<char>::empty() + list[0]) =~= list);
    } else {
        let init = list.drop_last();
        lemma_split_join(init, sep);
        let a = join_with(init, sep);
        let with_sep = a + seq![sep];
        assert(with_sep.drop_last() =~= a);
        assert(split_on(with_sep, sep) == init.push(Seq::empty()));
        assert(free_of(list.last(), sep));
        lemma_split_extend(with_sep, list.last(), sep);
        assert(Seq::<char>::empty() + list.last() =~= list.last());
        assert(init.push(Seq::empty()).update(init.len() as int, Seq::<char>::empty() + list.last()) =~= list);
    }
}

} // verus!
