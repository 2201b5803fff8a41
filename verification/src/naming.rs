//! Names of stored dumps and of the temporary files that they grow in.
use vstd::prelude::*;

use crate::number;
use crate::text;

verus! {

/// The name of a stored dump: PID, crash time in seconds, and nanoseconds of the processing.
pub open spec fn dump_name(pid: nat, timestamp: nat, nanos: nat) -> Seq<char> {
    "core."@ + number::decimal(pid) + "."@ + number::decimal(timestamp) + "."@
        + number::zero_padded(number::decimal(nanos), 9) + ".zst"@
}

/// The name of the temporary file of a dump.
pub open spec fn temp_name(name: Seq<char>) -> Seq<char> {
    "."@ + name + ".tmp"@
}

/// The path of an entry of a directory; an absolute path stands for itself.
pub open spec fn joined(dir: Seq<char>, name: Seq<char>) -> Seq<char> {
    if name.len() > 0 && name[0] == '/' {
        name
    } else if dir.len() == 0 || dir.last() == '/' {
        dir + name
    } else {
        dir.push('/') + name
    }
}

/// Whether an entry of the storage directory is named like the temporary file of a dump.
pub open spec fn is_temp_name(name: Seq<char>) -> bool {
    ".core."@.is_prefix_of(name) && ".zst.tmp"@.is_suffix_of(name)
}

/// Builds the name of a stored dump.
pub fn dump_file_name(pid: u32, timestamp: u64, nanos: u32) -> (r: String)
    ensures
        r@ == dump_name(pid as nat, timestamp as nat, nanos as nat),
{
    let mut r = "core.".to_owned();
    number::push_digits(&mut r, pid as u64, 10);
    r.append(".");
    number::push_digits(&mut r, timestamp, 10);
    r.append(".");
    number::push_padded(&mut r, nanos as u64, 9);
    r.append(".zst");
    r
}

/// Builds the name of the temporary file of a dump.
pub fn temp_file_name(name: &str) -> (r: String)
    ensures
        r@ == temp_name(name@),
{
    let mut r = ".".to_owned();
    r.append(name);
    r.append(".tmp");
    r
}

/// Builds the path of an entry of a directory.
pub fn join_path(dir: &str, name: &str) -> (r: String)
    ensures
        r@ == joined(dir@, name@),
{
    if name.unicode_len() > 0 && name.get_char(0) == '/' {
        return name.to_owned();
    }
    let mut r = dir.to_owned();
    let n = dir.unicode_len();
    if n > 0 && dir.get_char(n - 1) != '/' {
        r.push('/');
    }
    r.append(name);
    r
}

/// Decides whether an entry of the storage directory is the temporary file of a dump.
///
/// When no dump is being stored, such an entry is left over from a handler that was killed.
pub fn is_temp_file_name(name: &str) -> (r: bool)
    ensures
        r == is_temp_name(name@),
{
    let v = text::chars_of(name);
    starts_with(&v, ".core.") && ends_with(&v, ".zst.tmp")
}

fn starts_with(v: &Vec<char>, prefix: &str) -> (r: bool)
    ensures
        r == prefix@.is_prefix_of(v@),
{
    let p = text::chars_of(prefix);
    if p.len() > v.len() {
        return false;
    }
    for i in 0..p.len()
        invariant
            p@ == prefix@,
            p@.len() <= v@.len(),
            forall|k: int| 0 <= k < i ==> p@[k] == v@[k],
    {
        if p[i] != v[i] {
            return false;
        }
    }
    true
}

fn ends_with(v: &Vec<char>, suffix: &str) -> (r: bool)
    ensures
        r == suffix@.is_suffix_of(v@),
{
    let p = text::chars_of(suffix);
    if p.len() > v.len() {
        return false;
    }
    let cut: usize = v.len() - p.len();
    for i in 0..p.len()
        invariant
            p@ == suffix@,
            p@.len() <= v@.len(),
            cut == v@.len() - p@.len(),
            v@.len() <= usize::MAX,
            forall|k: int| 0 <= k < i ==> p@[k] == v@[cut + k],
    {
        if p[i] != v[cut + i] {
            return false;
        }
    }
    true
}

/// Digits up to a dot: the digits and what follows the dot are determined by the whole.
proof fn lemma_split_at_dot(a: Seq<char>, x: Seq<char>, b: Seq<char>, y: Seq<char>)
    requires
        number::all_digits(a),
        number::all_digits(b),
        a.push('.') + x == b.push('.') + y,
    ensures
        a == b,
        x == y,
{
    let s = a.push('.') + x;
    if a.len() < b.len() {
        assert(s[a.len() as int] == '.');
        assert(s[a.len() as int] == b[a.len() as int]);
        assert(number::is_digit(b[a.len() as int]));
    } else if b.len() < a.len() {
        assert(s[b.len() as int] == (b.push('.') + y)[b.len() as int]);
        assert(s[b.len() as int] == a[b.len() as int]);
        assert(number::is_digit(a[b.len() as int]));
    }
    assert(a == s.take(a.len() as int));
    assert(b == (b.push('.') + y).take(a.len() as int));
    assert(x == s.skip(a.len() as int + 1));
    assert(y == (b.push('.') + y).skip(a.len() as int + 1));
}

proof fn lemma_zeros_in_front(zeros: nat, s: Seq<char>)
    ensures
        number::decimal_value(Seq::new(zeros, |i: int| '0') + s) == number::decimal_value(s),
    decreases s.len() + zeros,
{
    let z = Seq::new(zeros, |i: int| '0');
    let t = z + s;
    if s.len() > 0 {
        lemma_zeros_in_front(zeros, s.drop_last());
        assert(t.drop_last() == z + s.drop_last());
    } else if zeros > 0 {
        let y = Seq::new((zeros - 1) as nat, |i: int| '0');
        lemma_zeros_in_front((zeros - 1) as nat, s);
        assert(t.drop_last() == y + s);
        assert(t.last() == '0');
    } else {
        assert(t == s);
    }
}

proof fn lemma_padded(n: nat)
    ensures
        number::decimal_value(number::zero_padded(number::decimal(n), 9)) == n,
        number::all_digits(number::zero_padded(number::decimal(n), 9)),
{
    number::law_decimal_round_trip(n);
    let s = number::decimal(n);
    if s.len() < 9 {
        lemma_zeros_in_front((9 - s.len()) as nat, s);
        let t = number::zero_padded(s, 9);
        assert forall|i: int| 0 <= i < t.len() implies number::is_digit(#[trigger] t[i]) by {
            if i >= 9 - s.len() {
                assert(t[i] == s[i - (9 - s.len())]);
            }
        }
    }
}

/// The name of a dump tells its PID, its crash time and its nanoseconds: dumps that differ in
/// any of them have different names.
pub proof fn law_dump_name_injective(p: nat, t: nat, n: nat, q: nat, u: nat, m: nat)
    requires
        dump_name(p, t, n) == dump_name(q, u, m),
    ensures
        p == q,
        t == u,
        n == m,
{
    reveal_strlit("core.");
    reveal_strlit(".");
    reveal_strlit(".zst");
    let pad_n = number::zero_padded(number::decimal(n), 9);
    let pad_m = number::zero_padded(number::decimal(m), 9);
    let x2 = pad_n + ".zst"@;
    let y2 = pad_m + ".zst"@;
    let x1 = number::decimal(t).push('.') + x2;
    let y1 = number::decimal(u).push('.') + y2;
    number::law_decimal_round_trip(p);
    number::law_decimal_round_trip(q);
    number::law_decimal_round_trip(t);
    number::law_decimal_round_trip(u);
    let a = dump_name(p, t, n);
    let b = dump_name(q, u, m);
    assert(a == "core."@ + (number::decimal(p).push('.') + x1));
    assert(b == "core."@ + (number::decimal(q).push('.') + y1));
    assert(a.skip(5) == number::decimal(p).push('.') + x1);
    assert(b.skip(5) == number::decimal(q).push('.') + y1);
    lemma_split_at_dot(number::decimal(p), x1, number::decimal(q), y1);
    lemma_split_at_dot(number::decimal(t), x2, number::decimal(u), y2);
    assert(x2.take(x2.len() - 4) == pad_n);
    assert(y2.take(y2.len() - 4) == pad_m);
    lemma_padded(n);
    lemma_padded(m);
}

/// The temporary file of a dump is recognised as one, and no stored dump is.
pub proof fn law_temp_names(pid: nat, timestamp: nat, nanos: nat)
    ensures
        is_temp_name(temp_name(dump_name(pid, timestamp, nanos))),
        !is_temp_name(dump_name(pid, timestamp, nanos)),
{
    reveal_strlit("core.");
    reveal_strlit(".");
    reveal_strlit(".zst");
    reveal_strlit(".tmp");
    reveal_strlit(".core.");
    reveal_strlit(".zst.tmp");
    let name = dump_name(pid, timestamp, nanos);
    let temp = temp_name(name);
    assert(name[0] == 'c');
    assert(".core."@[0] == '.');
    let n = name.len() as int;
    assert(name.subrange(n - 4, n) == ".zst"@);
    assert forall|k: int| 0 <= k < 6 implies ".core."@[k] == temp[k] by {
        if k > 0 {
            assert(temp[k] == name[k - 1]);
            assert(name[k - 1] == "core."@[k - 1]);
        }
    }
    assert(temp.len() == n + 5);
    assert forall|k: int| 0 <= k < 8 implies ".zst.tmp"@[k] == temp[n - 3 + k] by {
        if k < 4 {
            assert(temp[n - 3 + k] == name[n - 4 + k]);
            assert(name[n - 4 + k] == ".zst"@[k]);
        } else {
            assert(temp[n - 3 + k] == ".tmp"@[k - 4]);
        }
    }
    assert(".core."@ == temp.subrange(0, 6));
    assert(".zst.tmp"@ == temp.subrange(n - 3, n + 5));
}

/// Two dumps with the same temporary file are the same dump.
pub proof fn law_temp_name_injective(a: Seq<char>, b: Seq<char>)
    requires
        temp_name(a) == temp_name(b),
    ensures
        a == b,
{
    reveal_strlit(".");
    reveal_strlit(".tmp");
    assert(a == temp_name(a).subrange(1, temp_name(a).len() - 4));
    assert(b == temp_name(b).subrange(1, temp_name(b).len() - 4));
}

/// A dump and its temporary file are entries of the storage directory itself, so that the
/// one is renamed to the other in place, and they are two.
pub proof fn law_names_stay_in_directory(dir: Seq<char>, pid: nat, timestamp: nat, nanos: nat)
    ensures
        ({
            let name = dump_name(pid, timestamp, nanos);
            let temp = temp_name(name);
            &&& !name.contains('/') && !temp.contains('/')
            &&& dir.is_prefix_of(joined(dir, name)) && name.is_suffix_of(joined(dir, name))
            &&& dir.is_prefix_of(joined(dir, temp)) && temp.is_suffix_of(joined(dir, temp))
            &&& joined(dir, name) != joined(dir, temp)
        }),
{
    reveal_strlit("core.");
    reveal_strlit(".");
    reveal_strlit(".zst");
    reveal_strlit(".tmp");
    number::law_decimal_round_trip(pid);
    number::law_decimal_round_trip(timestamp);
    lemma_padded(nanos);
    let (a, b) = (number::decimal(pid), number::decimal(timestamp));
    let c = number::zero_padded(number::decimal(nanos), 9);
    let name = dump_name(pid, timestamp, nanos);
    let temp = temp_name(name);
    assert forall|i: int| 0 <= i < name.len() implies name[i] != '/' by {
        let (x, y) = (5 + a.len(), 6 + a.len() + b.len());
        if 5 <= i < x {
            assert(name[i] == a[i - 5]);
            assert(number::is_digit(a[i - 5]));
        } else if x < i < y {
            assert(name[i] == b[i - x - 1]);
            assert(number::is_digit(b[i - x - 1]));
        } else if y < i < y + 1 + c.len() {
            assert(name[i] == c[i - y - 1]);
            assert(number::is_digit(c[i - y - 1]));
        }
    }
    assert forall|i: int| 0 <= i < temp.len() implies temp[i] != '/' by {
        if 1 <= i <= name.len() {
            assert(temp[i] == name[i - 1]);
        }
    }
    assert(temp.len() == name.len() + 5);
    let (p, q) = (joined(dir, name), joined(dir, temp));
    assert(dir == p.take(dir.len() as int) && dir == q.take(dir.len() as int));
    assert(name == p.skip(p.len() - name.len()) && temp == q.skip(q.len() - temp.len()));
}

/// The path of an entry is its directory, one separator, and its name, where the directory does
/// not bring a separator of its own. What stands before the last separator is the directory.
pub proof fn law_entry_path(dir: Seq<char>, name: Seq<char>)
    requires
        !name.contains('/'),
    ensures
        ({
            let path = joined(dir, name);
            &&& dir.len() > 0 && dir.last() != '/' ==> {
                &&& path == dir + seq!['/'] + name
                &&& path.take(dir.len() as int) == dir
                &&& path[dir.len() as int] == '/'
                &&& forall|i: int| dir.len() < i < path.len() ==> #[trigger] path[i] != '/'
            }
            &&& dir.len() > 0 && dir.last() == '/' ==> {
                &&& path == dir + name
                &&& forall|i: int| dir.len() <= i < path.len() ==> #[trigger] path[i] != '/'
            }
            &&& dir.len() == 0 ==> path == name
        }),
{
    if name.len() > 0 {
        assert(name.contains(name[0]));
    }
    assert forall|i: int| 0 <= i < name.len() implies name[i] != '/' by {
        assert(name.contains(name[i]));
    }
    let path = joined(dir, name);
    if dir.len() > 0 && dir.last() != '/' {
        assert(path == dir + seq!['/'] + name);
        assert(path.take(dir.len() as int) == dir);
        assert forall|i: int| dir.len() < i < path.len() implies #[trigger] path[i] != '/' by {
            assert(path[i] == name[i - dir.len() - 1]);
        }
    } else {
        assert(path == dir + name);
        assert forall|i: int| dir.len() <= i < path.len() implies #[trigger] path[i] != '/' by {
            assert(path[i] == name[i - dir.len()]);
        }
    }
}

/// An absolute path stands for itself, and any other leads on from the directory, with a
/// separator in between where the directory has none at its end.
pub proof fn law_joined(dir: Seq<char>, name: Seq<char>)
    ensures
        joined(dir, seq!['/'] + name) == seq!['/'] + name,
        name.len() == 0 || name[0] != '/' ==> {
            &&& joined(dir + seq!['/'], name) == dir + seq!['/'] + name
            &&& joined(Seq::empty(), name) == name
            &&& dir.len() > 0 && dir.last() != '/' ==> joined(dir, name) == dir + seq!['/'] + name
        },
{
    let abs = seq!['/'] + name;
    assert(abs[0] == '/');
    assert((dir + seq!['/']).last() == '/');
    assert(Seq::<char>::empty() + name == name);
    if dir.len() > 0 && dir.last() != '/' {
        assert(dir.push('/') == dir + seq!['/']);
    }
}

/// The name of a dump is made of the PID, the crash time and the nanoseconds, in this order and
/// in decimal digits: the first two without leading zeros, and the last with nine digits.
pub proof fn law_dump_name_fields(pid: nat, timestamp: nat, nanos: nat) -> (f: (
    Seq<char>,
    Seq<char>,
    Seq<char>,
))
    ensures
        dump_name(pid, timestamp, nanos) == "core."@ + f.0 + "."@ + f.1 + "."@ + f.2 + ".zst"@,
        number::decimal_value(f.0) == pid,
        number::decimal_value(f.1) == timestamp,
        number::decimal_value(f.2) == nanos,
        f.0.len() > 0 && f.1.len() > 0,
        forall|i: int| 0 <= i < f.0.len() ==> '0' <= #[trigger] f.0[i] <= '9',
        forall|i: int| 0 <= i < f.1.len() ==> '0' <= #[trigger] f.1[i] <= '9',
        forall|i: int| 0 <= i < f.2.len() ==> '0' <= #[trigger] f.2[i] <= '9',
        pid > 0 ==> f.0[0] != '0',
        timestamp > 0 ==> f.1[0] != '0',
        pid == 0 ==> f.0.len() == 1,
        timestamp == 0 ==> f.1.len() == 1,
        nanos < 1_000_000_000 ==> f.2.len() == 9,
        nanos >= 1_000_000_000 ==> f.2 == number::decimal(nanos),
{
    let f = (
        number::decimal(pid),
        number::decimal(timestamp),
        number::zero_padded(number::decimal(nanos), 9),
    );
    number::law_decimal_round_trip(pid);
    number::law_decimal_round_trip(timestamp);
    number::law_decimal_has_no_leading_zero(pid);
    number::law_decimal_has_no_leading_zero(timestamp);
    number::law_decimal_has_no_leading_zero(nanos);
    number::law_decimal_round_trip(nanos);
    lemma_padded(nanos);
    assert forall|i: int| 0 <= i < f.0.len() implies '0' <= #[trigger] f.0[i] <= '9' by {
        assert(number::is_digit(f.0[i]));
    }
    assert forall|i: int| 0 <= i < f.1.len() implies '0' <= #[trigger] f.1[i] <= '9' by {
        assert(number::is_digit(f.1[i]));
    }
    assert forall|i: int| 0 <= i < f.2.len() implies '0' <= #[trigger] f.2[i] <= '9' by {
        assert(number::is_digit(f.2[i]));
    }
    lemma_decimal_len(nanos, 9);
    assert(ten_to(9) == 1_000_000_000) by {
        reveal_with_fuel(ten_to, 10);
    }
    f
}

spec fn ten_to(k: nat) -> nat
    decreases k,
{
    if k == 0 {
        1
    } else {
        10 * ten_to((k - 1) as nat)
    }
}

proof fn lemma_decimal_len(n: nat, k: nat)
    requires
        k > 0,
    ensures
        number::decimal(n).len() <= k <==> n < ten_to(k),
    decreases k,
{
    reveal_with_fuel(ten_to, 2);
    if n >= 10 {
        number::law_decimal_round_trip(n / 10);
        assert(number::decimal(n).len() == number::decimal(n / 10).len() + 1);
        if k > 1 {
            lemma_decimal_len(n / 10, (k - 1) as nat);
        }
    } else if k > 1 {
        lemma_decimal_len(n, (k - 1) as nat);
    }
}

/// The temporary file of a dump has a dot in front of the dump's name, and `.tmp` behind it.
pub proof fn law_temp_name(name: Seq<char>)
    ensures
        temp_name(name) == seq!['.'] + name + seq!['.', 't', 'm', 'p'],
{
    reveal_strlit(".");
    reveal_strlit(".tmp");
}

/// A leftover is told by how its name begins and how it ends, and by nothing else.
pub proof fn law_is_temp_name(name: Seq<char>)
    ensures
        is_temp_name(".core."@ + name + ".zst.tmp"@),
        is_temp_name(name) ==> name.len() >= 8 && name.take(6) == ".core."@ && name.skip(
            name.len() - 8,
        ) == ".zst.tmp"@,
        name.len() >= 8 && name.take(6) == ".core."@ && name.skip(name.len() - 8) == ".zst.tmp"@
            ==> is_temp_name(name),
{
    reveal_strlit(".core.");
    reveal_strlit(".zst.tmp");
    let s = ".core."@ + name + ".zst.tmp"@;
    assert(s.subrange(0, 6) == ".core."@);
    assert(s.subrange(s.len() - 8, s.len() as int) == ".zst.tmp"@);
    if name.len() >= 8 {
        assert(name.take(6) == name.subrange(0, 6));
        assert(name.skip(name.len() - 8) == name.subrange(name.len() - 8, name.len() as int));
    }
}

} // verus!
