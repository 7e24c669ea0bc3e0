//! Strings as sequences of characters: comparing, joining, numbers in decimal,
//! and paths.

use vstd::prelude::*;
use vstd::utf8::encode_utf8;

verus! {

/// `String::push` of the standard library appends the character.
pub assume_specification[ String::push ](s: &mut String, c: char)
    ensures
        final(s)@ == old(s)@.push(c),
;

/// The characters of a string.
pub fn chars_of(s: &str) -> (r: Vec<char>)
    ensures
        r@ == s@,
{
    let mut r: Vec<char> = Vec::new();
    for c in iter: s.chars()
        invariant
            iter.seq() == s@,
            r@ == s@.take(iter.index() as int),
    {
        assert(s@.take(iter.index() as int + 1) == s@.take(iter.index() as int).push(c));
        r.push(c);
    }
    assert(s@.take(s@.len() as int) == s@);
    r
}

/// The string of some characters, from the `from`-th on.
pub fn string_from(chars: &Vec<char>, from: usize) -> (r: String)
    requires
        from <= chars@.len(),
    ensures
        r@ == chars@.skip(from as int),
{
    let mut r: String = String::new();
    let mut i: usize = from;
    while i < chars.len()
        invariant
            from <= i <= chars@.len(),
            r@ == chars@.subrange(from as int, i as int),
        decreases chars@.len() - i,
    {
        assert(chars@.subrange(from as int, i + 1) == chars@.subrange(from as int, i as int).push(
            chars@[i as int],
        ));
        r.push(chars[i]);
        i += 1;
    }
    assert(chars@.subrange(from as int, chars@.len() as int) == chars@.skip(from as int));
    r
}

/// Whether two strings hold the same characters.
pub fn same_text(a: &str, b: &str) -> (r: bool)
    ensures
        r == (a@ == b@),
{
    a.to_owned() == b.to_owned()
}

/// One string after the other.
pub fn joined(a: &str, b: &str) -> (r: String)
    ensures
        r@ == a@ + b@,
{
    let mut r: String = a.to_owned();
    r.append(b);
    r
}

/// The digit for a number from 0 to 9.
pub open spec fn digit(d: int) -> char {
    ('0' as int + d) as char
}

fn digit_char(d: u64) -> (r: char)
    requires
        d <= 9,
    ensures
        r == digit(d as int),
{
    match d {
        0 => '0',
        1 => '1',
        2 => '2',
        3 => '3',
        4 => '4',
        5 => '5',
        6 => '6',
        7 => '7',
        8 => '8',
        _ => '9',
    }
}

/// A number in decimal.
pub open spec fn digits(n: nat) -> Seq<char>
    decreases n,
{
    if n < 10 {
        seq![digit(n as int)]
    } else {
        digits(n / 10).push(digit((n % 10) as int))
    }
}

/// Writes a number in decimal.
pub fn decimal(n: u64) -> (r: String)
    ensures
        r@ == digits(n as nat),
    decreases n,
{
    if n < 10 {
        let mut r: String = String::new();
        r.push(digit_char(n));
        assert(r@ == seq![digit(n as int)]);
        r
    } else {
        let mut r: String = decimal(n / 10);
        r.push(digit_char(n % 10));
        r
    }
}

/// A whole number in decimal, with a minus sign where it is negative.
pub open spec fn signed_digits(n: int) -> Seq<char> {
    if n < 0 {
        seq!['-'] + digits((-n) as nat)
    } else {
        digits(n as nat)
    }
}

/// Writes a whole number in decimal.
pub fn signed_decimal(n: i64) -> (r: String)
    ensures
        r@ == signed_digits(n as int),
{
    if n < 0 {
        let size: u64 = (-(n as i128)) as u64;
        let mut r: String = String::new();
        r.push('-');
        let d: String = decimal(size);
        r.append(d.as_str());
        assert(r@ == seq!['-'] + digits((-n) as nat));
        r
    } else {
        decimal(n as u64)
    }
}

/// `n` zeros.
pub open spec fn zeros(n: int) -> Seq<char> {
    if n <= 0 {
        Seq::empty()
    } else {
        Seq::new(n as nat, |i: int| '0')
    }
}

/// A whole number in decimal, filled up with zeros to at least `width`
/// characters, the sign among them.
pub open spec fn padded(n: int, width: int) -> Seq<char> {
    if n < 0 {
        let d = digits((-n) as nat);
        seq!['-'] + zeros(width - 1 - d.len()) + d
    } else {
        let d = digits(n as nat);
        zeros(width - d.len()) + d
    }
}

fn zeros_of(n: usize) -> (r: String)
    ensures
        r@ == zeros(n as int),
{
    let mut r: String = String::new();
    let mut i: usize = 0;
    while i < n
        invariant
            i <= n,
            r@ == zeros(i as int),
        decreases n - i,
    {
        r.push('0');
        i += 1;
        assert(r@ =~= zeros(i as int));
    }
    r
}

/// Writes a whole number in decimal, filled up with zeros to at least `width`
/// characters.
pub fn padded_decimal(n: i64, width: usize) -> (r: String)
    ensures
        r@ == padded(n as int, width as int),
{
    let size: u64 = if n < 0 { (-(n as i128)) as u64 } else { n as u64 };
    let d: String = decimal(size);
    let len: usize = d.as_str().unicode_len();
    let mut r: String = String::new();
    if n < 0 {
        r.push('-');
        let fill: usize = if width > 1 && width - 1 > len { width - 1 - len } else { 0 };
        let z: String = zeros_of(fill);
        r.append(z.as_str());
        r.append(d.as_str());
        assert(r@ == seq!['-'] + zeros(fill as int) + d@);
        assert(zeros(fill as int) == zeros(width - 1 - d@.len()));
        r
    } else {
        let fill: usize = if width > len { width - len } else { 0 };
        let z: String = zeros_of(fill);
        r.append(z.as_str());
        r.append(d.as_str());
        assert(r@ == zeros(fill as int) + d@);
        assert(zeros(fill as int) == zeros(width - d@.len()));
        r
    }
}

/// The byte of the separator in paths.
pub const SLASH: u8 = 0x2F;

/// A path below a directory: an absolute path stands for itself, another one
/// follows the directory, with one separator between them. A directory is the
/// bytes that the system has for it, which need not be text.
pub open spec fn path_below(dir: Seq<u8>, path: Seq<char>) -> Seq<u8> {
    if path.len() > 0 && path[0] == '/' {
        encode_utf8(path)
    } else if dir.len() > 0 && dir.last() != SLASH {
        dir.push(SLASH) + encode_utf8(path)
    } else {
        dir + encode_utf8(path)
    }
}

/// The bytes of a text.
pub fn bytes_of(s: &str) -> (r: Vec<u8>)
    ensures
        r@ == encode_utf8(s@),
{
    vstd::slice::slice_to_vec(s.as_bytes())
}

/// Appends a path to a directory.
pub fn join_path(dir: &[u8], path: &str) -> (r: Vec<u8>)
    ensures
        r@ == path_below(dir@, path@),
{
    let p: Vec<char> = chars_of(path);
    let mut tail: Vec<u8> = bytes_of(path);
    if p.len() > 0 && p[0] == '/' {
        return tail;
    }
    let mut r: Vec<u8> = vstd::slice::slice_to_vec(dir);
    if dir.len() > 0 && dir[dir.len() - 1] != SLASH {
        r.push(SLASH);
    }
    r.append(&mut tail);
    r
}

/// Whether `part` occurs in `whole` at position `at`.
pub open spec fn occurs_at(whole: Seq<char>, part: Seq<char>, at: int) -> bool {
    0 <= at && at + part.len() <= whole.len() && whole.subrange(at, at + part.len()) == part
}

/// Whether `part` occurs somewhere in `whole`.
pub open spec fn occurs(whole: Seq<char>, part: Seq<char>) -> bool {
    exists|at: int| occurs_at(whole, part, at)
}

/// Whether one string occurs in another.
pub fn contains_text(whole: &str, part: &str) -> (r: bool)
    ensures
        r == occurs(whole@, part@),
{
    let w: Vec<char> = chars_of(whole);
    let p: Vec<char> = chars_of(part);
    if p.len() > w.len() {
        return false;
    }
    let mut at: usize = 0;
    while at <= w.len() - p.len()
        invariant
            w@ == whole@,
            p@ == part@,
            p@.len() <= w@.len(),
            at <= w@.len() - p@.len() + 1,
            forall|k: int| 0 <= k < at ==> !occurs_at(whole@, part@, k),
        decreases w@.len() - p@.len() + 1 - at,
    {
        let mut i: usize = 0;
        while i < p.len() && w[at + i] == p[i]
            invariant
                w@ == whole@,
                p@ == part@,
                i <= p@.len(),
                at + p@.len() <= w@.len() <= usize::MAX,
                forall|k: int| 0 <= k < i ==> w@[at + k] == p@[k],
            decreases p@.len() - i,
        {
            i += 1;
        }
        if i == p.len() {
            assert(whole@.subrange(at as int, at + part@.len()) == part@);
            assert(occurs_at(whole@, part@, at as int));
            return true;
        }
        assert(!occurs_at(whole@, part@, at as int)) by {
            if occurs_at(whole@, part@, at as int) {
                assert(whole@.subrange(at as int, at + part@.len())[i as int] == part@[i as int]);
            }
        }
        if at == w.len() - p.len() {
            return false;
        }
        at += 1;
    }
    false
}

/// The characters of each of some strings.
pub open spec fn texts(v: Seq<String>) -> Seq<Seq<char>> {
    v.map_values(|s: String| s@)
}

/// The bytes of each of some paths.
pub open spec fn paths(v: Seq<Vec<u8>>) -> Seq<Seq<u8>> {
    v.map_values(|p: Vec<u8>| p@)
}

/// A text cut at each separator: the parts that are complete, without the empty
/// ones, and the part that is not complete yet.
pub open spec fn cut_up(s: Seq<char>, sep: char) -> (Seq<Seq<char>>, Seq<char>)
    decreases s.len(),
{
    if s.len() == 0 {
        (Seq::empty(), Seq::empty())
    } else {
        let (done, last) = cut_up(s.drop_last(), sep);
        if s.last() == sep {
            (with_part(done, last), Seq::empty())
        } else {
            (done, last.push(s.last()))
        }
    }
}

/// Some parts and one more, unless that is empty.
pub open spec fn with_part(done: Seq<Seq<char>>, part: Seq<char>) -> Seq<Seq<char>> {
    if part.len() > 0 {
        done.push(part)
    } else {
        done
    }
}

/// The parts of a text between separators, without the empty ones.
pub open spec fn parts(s: Seq<char>, sep: char) -> Seq<Seq<char>> {
    let (done, last) = cut_up(s, sep);
    with_part(done, last)
}

/// No part is empty and none holds the separator.
pub proof fn parts_are_clean(s: Seq<char>, sep: char)
    ensures
        forall|i: int|
            0 <= i < parts(s, sep).len() ==> (#[trigger] parts(s, sep)[i]).len() > 0 && !parts(
                s,
                sep,
            )[i].contains(sep),
{
    lemma_cut_up(s, sep);
}

proof fn lemma_cut_up(s: Seq<char>, sep: char)
    ensures
        !cut_up(s, sep).1.contains(sep),
        forall|i: int|
            0 <= i < cut_up(s, sep).0.len() ==> (#[trigger] cut_up(s, sep).0[i]).len() > 0
                && !cut_up(s, sep).0[i].contains(sep),
    decreases s.len(),
{
    if s.len() > 0 {
        lemma_cut_up(s.drop_last(), sep);
        let (done, last) = cut_up(s.drop_last(), sep);
        if s.last() != sep {
            assert(!last.push(s.last()).contains(sep)) by {
                if last.push(s.last()).contains(sep) {
                    let i = choose|i: int|
                        0 <= i < last.push(s.last()).len() && last.push(s.last())[i] == sep;
                    if i < last.len() {
                        assert(last.contains(last[i]));
                    }
                }
            }
        }
    }
}

/// Cuts a text at each separator and drops empty parts.
pub fn split_nonempty(s: &str, sep: char) -> (r: Vec<String>)
    ensures
        texts(r@) == parts(s@, sep),
{
    let c: Vec<char> = chars_of(s);
    let mut done: Vec<String> = Vec::new();
    let mut last: String = String::new();
    let mut count: usize = 0;
    let mut i: usize = 0;
    assert(c@.take(0) == Seq::<char>::empty());
    assert(texts(done@) == Seq::<Seq<char>>::empty());
    while i < c.len()
        invariant
            c@ == s@,
            i <= c@.len(),
            count == last@.len(),
            count <= i,
            (texts(done@), last@) == cut_up(c@.take(i as int), sep),
        decreases c@.len() - i,
    {
        let ghost seen = c@.take(i + 1);
        assert(seen.drop_last() == c@.take(i as int));
        assert(seen.last() == c@[i as int]);
        let ghost before = texts(done@);
        let ghost part = last@;
        if c[i] == sep {
            if count > 0 {
                let ghost old_done = done@;
                done.push(last);
                assert(texts(done@) =~= before.push(part));
            }
            last = String::new();
            count = 0;
        } else {
            last.push(c[i]);
            count += 1;
        }
        i += 1;
    }
    assert(c@.take(i as int) == c@);
    let ghost before = texts(done@);
    let ghost part = last@;
    if count > 0 {
        done.push(last);
        assert(texts(done@) =~= before.push(part));
    }
    done
}

/// The number that some decimal digits stand for.
pub open spec fn reading(s: Seq<char>) -> int
    decreases s.len(),
{
    if s.len() == 0 {
        0
    } else {
        reading(s.drop_last()) * 10 + (s.last() as int - '0' as int)
    }
}

/// A number written in decimal reads as the number, is made of digits and has
/// no needless zero in front.
pub proof fn decimal_reads_back(n: nat)
    ensures
        reading(digits(n)) == n,
        digits(n).len() > 0,
        forall|i: int|
            #![trigger digits(n)[i]]
            0 <= i < digits(n).len() ==> '0' as int <= digits(n)[i] as int <= '9' as int,
        n > 0 ==> digits(n)[0] != '0',
    decreases n,
{
    let d = digits(n);
    if n < 10 {
        assert(d.len() == 1 && d[0] == digit(n as int));
        assert(d.drop_last() =~= Seq::empty());
        assert(reading(d.drop_last()) == 0);
        assert(d.last() as int == '0' as int + n);
    } else {
        decimal_reads_back(n / 10);
        let front = digits(n / 10);
        assert(d.drop_last() =~= front);
        assert(d.last() as int == '0' as int + n % 10);
        assert(forall|i: int| 0 <= i < front.len() ==> d[i] == front[i]);
    }
}

/// A whole number with a sign reads as its size, and has a minus sign in front
/// where it is negative and only there.
pub proof fn signed_decimal_reads_back(n: int)
    ensures
        n >= 0 ==> reading(signed_digits(n)) == n && signed_digits(n)[0] != '-',
        n < 0 ==> signed_digits(n)[0] == '-' && reading(signed_digits(n).skip(1)) == -n,
{
    if n < 0 {
        decimal_reads_back((-n) as nat);
        assert(signed_digits(n).skip(1) =~= digits((-n) as nat));
    } else {
        decimal_reads_back(n as nat);
    }
}

proof fn lemma_reading_after_zeros(k: nat, d: Seq<char>)
    ensures
        reading(Seq::new(k, |i: int| '0') + d) == reading(d),
    decreases k + d.len(),
{
    let z = Seq::new(k, |i: int| '0');
    let s = z + d;
    if d.len() > 0 {
        assert(s.drop_last() =~= z + d.drop_last());
        assert(s.last() == d.last());
        lemma_reading_after_zeros(k, d.drop_last());
    } else if k > 0 {
        let shorter = Seq::new((k - 1) as nat, |i: int| '0');
        assert(s.drop_last() =~= shorter + d);
        assert(s.last() == '0');
        lemma_reading_after_zeros((k - 1) as nat, d);
    } else {
        assert(s =~= d);
    }
}

/// Filling up with zeros changes no number, and reaches the width: a number
/// that is shorter gets exactly the width, a longer one stays as it is.
pub proof fn padding_keeps_the_number(n: int, width: int)
    requires
        n >= 0,
    ensures
        reading(padded(n, width)) == n,
        padded(n, width).len() >= width,
        digits(n as nat).len() >= width ==> padded(n, width) == digits(n as nat),
        digits(n as nat).len() < width ==> padded(n, width).len() == width,
{
    decimal_reads_back(n as nat);
    let d = digits(n as nat);
    let k = width - d.len();
    if k > 0 {
        lemma_reading_after_zeros(k as nat, d);
        assert(zeros(k) == Seq::new(k as nat, |i: int| '0'));
    } else {
        assert(zeros(k) + d =~= d);
    }
}

/// A number with as many digits as the width allows reads back from its last
/// characters: the zeros all stand in front.
pub proof fn padding_stands_in_front(n: int, width: int)
    requires
        n >= 0,
        digits(n as nat).len() <= width,
    ensures
        padded(n, width).len() == width,
        padded(n, width).skip(width - digits(n as nat).len()) == digits(n as nat),
        forall|i: int|
            #![trigger padded(n, width)[i]]
            0 <= i < width - digits(n as nat).len() ==> padded(n, width)[i] == '0',
{
    let d = digits(n as nat);
    assert(padded(n, width).skip(width - d.len()) =~= d);
}

/// A path below a directory keeps both: the directory stays in front, the path
/// behind it, and exactly one separator parts them. An absolute path forgets
/// the directory.
pub proof fn paths_join_at_one_separator(dir: Seq<u8>, path: Seq<char>)
    ensures
        ({
            let r = path_below(dir, path);
            let p = encode_utf8(path);
            &&& path.len() > 0 && path[0] == '/' ==> r == p
            &&& (path.len() == 0 || path[0] != '/') && dir.len() > 0 && dir[dir.len() - 1] == 0x2f
                ==> r == dir + p
            &&& (path.len() == 0 || path[0] != '/') && dir.len() > 0 && dir[dir.len() - 1] != 0x2f
                ==> r == dir + seq![0x2fu8] + p
            &&& (path.len() == 0 || path[0] != '/') && dir.len() == 0 ==> r == p
        }),
{
    let p = encode_utf8(path);
    assert(dir.push(SLASH) =~= dir + seq![0x2fu8]);
    assert(Seq::<u8>::empty() + p =~= p);
    if dir.len() == 0 {
        assert(dir + p =~= p);
    }
}

proof fn lemma_cut_up_joins(a: Seq<char>, b: Seq<char>, sep: char)
    ensures
        ({
            let (done, last) = cut_up(b, sep);
            cut_up(a.push(sep) + b, sep) == (parts(a, sep) + done, last)
        }),
    decreases b.len(),
{
    let whole = a.push(sep) + b;
    if b.len() == 0 {
        assert(whole =~= a.push(sep));
        assert(whole.drop_last() =~= a);
        assert(parts(a, sep) + Seq::<Seq<char>>::empty() =~= parts(a, sep));
    } else {
        lemma_cut_up_joins(a, b.drop_last(), sep);
        assert(whole.drop_last() =~= a.push(sep) + b.drop_last());
        assert(whole.last() == b.last());
        let (done, last) = cut_up(b.drop_last(), sep);
        if b.last() == sep && last.len() > 0 {
            assert((parts(a, sep) + done).push(last) =~= parts(a, sep) + done.push(last));
        }
    }
}

/// A separator parts what is before it from what is behind it, and a text
/// without one is a single part.
pub proof fn separators_part_texts(a: Seq<char>, b: Seq<char>, sep: char)
    ensures
        parts(a.push(sep) + b, sep) == parts(a, sep) + parts(b, sep),
        !a.contains(sep) && a.len() > 0 ==> parts(a, sep) == seq![a],
        a.len() == 0 ==> parts(a, sep).len() == 0,
{
    lemma_cut_up_joins(a, b, sep);
    let (done, last) = cut_up(b, sep);
    if last.len() > 0 {
        assert((parts(a, sep) + done).push(last) =~= parts(a, sep) + done.push(last));
    }
    if !a.contains(sep) {
        lemma_one_part(a, sep);
        if a.len() > 0 {
            assert(Seq::<Seq<char>>::empty().push(a) =~= seq![a]);
        }
    }
}

proof fn lemma_one_part(a: Seq<char>, sep: char)
    requires
        !a.contains(sep),
    ensures
        cut_up(a, sep) == (Seq::<Seq<char>>::empty(), a),
    decreases a.len(),
{
    if a.len() > 0 {
        assert(a[a.len() - 1] == a.last());
        assert(a.contains(a.last()));
        let front = a.drop_last();
        assert(!front.contains(sep)) by {
            if front.contains(sep) {
                let i = choose|i: int| 0 <= i < front.len() && front[i] == sep;
                assert(a[i] == sep);
            }
        }
        lemma_one_part(front, sep);
        assert(front.push(a.last()) =~= a);
    } else {
        assert(a =~= Seq::empty());
    }
}

/// A part occurs in a text that holds it in its middle, and in no text that is
/// shorter than it.
pub proof fn parts_occur_in_what_holds_them(before: Seq<char>, part: Seq<char>, after: Seq<char>)
    ensures
        occurs(before + part + after, part),
        before.len() < part.len() ==> !occurs(before, part),
{
    let whole = before + part + after;
    assert(whole.subrange(before.len() as int, (before.len() + part.len()) as int) =~= part);
    assert(occurs_at(whole, part, before.len() as int));
}

/// The texts of some strings are the strings' own, in their order, and so are
/// the bytes of some paths.
pub proof fn texts_keep_their_order(v: Seq<String>, p: Seq<Vec<u8>>, i: int)
    ensures
        texts(v).len() == v.len(),
        0 <= i < v.len() ==> texts(v)[i] == v[i]@,
        paths(p).len() == p.len(),
        0 <= i < p.len() ==> paths(p)[i] == p[i]@,
{
}

/// A number below zero has its sign first, then the zeros, then its digits; with
/// the sign it is as wide as asked for.
pub proof fn padding_follows_the_sign(n: int, width: int)
    requires
        n < 0,
    ensures
        padded(n, width)[0] == '-',
        reading(padded(n, width).skip(1)) == -n,
        padded(n, width).len() >= width,
{
    let d = digits((-n) as nat);
    decimal_reads_back((-n) as nat);
    let k = width - 1 - d.len();
    assert(padded(n, width).skip(1) =~= zeros(k) + d);
    if k > 0 {
        lemma_reading_after_zeros(k as nat, d);
        assert(zeros(k) == Seq::new(k as nat, |i: int| '0'));
    } else {
        assert(zeros(k) + d =~= d);
    }
}

} // verus!
