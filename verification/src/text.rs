//! Verified text helpers: building strings, prefix tests, splitting and
//! decimal / hexadecimal conversions.

use vstd::prelude::*;
use vstd::string::StrSliceExecFns;
use vstd::string::StringExecFns;

verus! {

/// True when `o` holds a string whose characters are `s`.
pub open spec fn str_opt(o: Option<String>, s: Seq<char>) -> bool {
    o matches Some(x) && x@ == s
}

/// The characters of an optional string, when there is one.
pub open spec fn opt_view(o: Option<String>) -> Option<Seq<char>> {
    match o {
        Some(x) => Some(x@),
        None => None,
    }
}

/// The characters of an optional borrowed string, when there is one.
pub open spec fn opt_str_view(o: Option<&str>) -> Option<Seq<char>> {
    match o {
        Some(x) => Some(x@),
        None => None,
    }
}

/// The decimal digit character for `d` (`d < 10`).
pub open spec fn digit_char(d: nat) -> char {
    if d == 0 { '0' }
    else if d == 1 { '1' }
    else if d == 2 { '2' }
    else if d == 3 { '3' }
    else if d == 4 { '4' }
    else if d == 5 { '5' }
    else if d == 6 { '6' }
    else if d == 7 { '7' }
    else if d == 8 { '8' }
    else { '9' }
}

/// The lowercase hexadecimal digit character for `d` (`d < 16`).
pub open spec fn hex_char(d: nat) -> char {
    if d < 10 { digit_char(d) }
    else if d == 10 { 'a' }
    else if d == 11 { 'b' }
    else if d == 12 { 'c' }
    else if d == 13 { 'd' }
    else if d == 14 { 'e' }
    else { 'f' }
}

/// Decimal representation of `n`, without sign or leading zeros.
pub open spec fn dec_digits(n: nat) -> Seq<char>
    decreases n,
{
    if n < 10 {
        seq![digit_char(n)]
    } else {
        dec_digits(n / 10) + seq![digit_char(n % 10)]
    }
}

/// Lowercase hexadecimal representation of `n`, without leading zeros.
pub open spec fn hex_digits(n: nat) -> Seq<char>
    decreases n,
{
    if n < 16 {
        seq![hex_char(n)]
    } else {
        hex_digits(n / 16) + seq![hex_char(n % 16)]
    }
}

/// `s` padded on the left with `'0'` up to `width` characters.
pub open spec fn zero_pad(s: Seq<char>, width: nat) -> Seq<char> {
    if s.len() >= width {
        s
    } else {
        Seq::new((width - s.len()) as nat, |i: int| '0') + s
    }
}

/// Decimal text of a signed integer.
pub open spec fn int_text(n: int) -> Seq<char> {
    if n < 0 {
        seq!['-'] + dec_digits((-n) as nat)
    } else {
        dec_digits(n as nat)
    }
}

/// Text of a boolean, as Rust's `Display` writes it.
pub open spec fn bool_text(b: bool) -> Seq<char> {
    if b { seq!['t', 'r', 'u', 'e'] } else { seq!['f', 'a', 'l', 's', 'e'] }
}

/// Value of a decimal digit character, if it is one.
pub open spec fn dec_value(c: char) -> Option<nat> {
    if '0' <= c && c <= '9' { Some((c as nat - '0' as nat) as nat) } else { None }
}

/// Value of a hexadecimal digit character (either case), if it is one.
pub open spec fn hex_value(c: char) -> Option<nat> {
    if '0' <= c && c <= '9' {
        Some((c as nat - '0' as nat) as nat)
    } else if 'a' <= c && c <= 'f' {
        Some((c as nat - 'a' as nat + 10) as nat)
    } else if 'A' <= c && c <= 'F' {
        Some((c as nat - 'A' as nat + 10) as nat)
    } else {
        None
    }
}

/// Whether every character of `s` is a digit of the given radix (10 or 16).
pub open spec fn all_digits(s: Seq<char>, radix: nat) -> bool {
    forall|i: int| 0 <= i < s.len() ==> digit_ok(#[trigger] s[i], radix)
}

/// Whether `c` is a digit of the given radix (10 or 16).
pub open spec fn digit_ok(c: char, radix: nat) -> bool {
    if radix == 16 { hex_value(c) is Some } else { dec_value(c) is Some }
}

/// Value of the digit `c` in the given radix (10 or 16).
pub open spec fn digit_value(c: char, radix: nat) -> nat {
    if radix == 16 { hex_value(c).unwrap() } else { dec_value(c).unwrap() }
}

/// The number that the digits `s` spell in the given radix.
pub open spec fn digits_value(s: Seq<char>, radix: nat) -> nat
    decreases s.len(),
{
    if s.len() == 0 {
        0
    } else {
        digits_value(s.drop_last(), radix) * radix + digit_value(s.last(), radix)
    }
}

/// The digits that an unsigned integer parse reads: one leading `'+'` is skipped.
pub open spec fn unsigned_body(s: Seq<char>) -> Seq<char> {
    if s.len() > 0 && s[0] == '+' { s.drop_first() } else { s }
}

/// The value that std's unsigned parse in `radix` gives for `s` when it
/// succeeds with an upper bound of `max`; `None` when it fails.
pub open spec fn parse_unsigned(s: Seq<char>, radix: nat, max: nat) -> Option<nat> {
    let body = unsigned_body(s);
    if body.len() > 0 && all_digits(body, radix) && digits_value(body, radix) <= max {
        Some(digits_value(body, radix))
    } else {
        None
    }
}

/// Whether `s` begins with `p`.
pub open spec fn has_prefix(s: Seq<char>, p: Seq<char>) -> bool {
    p.len() <= s.len() && s.subrange(0, p.len() as int) == p
}

/// Index of the first `c` in `s`, if any.
pub open spec fn first_index_of(s: Seq<char>, c: char) -> Option<int> {
    if exists|i: int| 0 <= i < s.len() && s[i] == c {
        Some(choose|i: int| 0 <= i < s.len() && s[i] == c && forall|j: int| 0 <= j < i ==> s[j] != c)
    } else {
        None
    }
}

/// Splitting at the first `c`, as `str::split_once` does.
pub open spec fn split_once_spec(s: Seq<char>, c: char) -> Option<(Seq<char>, Seq<char>)> {
    match first_index_of(s, c) {
        Some(i) => Some((s.subrange(0, i), s.subrange(i + 1, s.len() as int))),
        None => None,
    }
}

/// The custom id `command/id`, which names the command that handles the component.
pub fn custom_id_string(command: &str, id: &str) -> (r: String)
    ensures
        r@ == custom_id_text(command@, id@),
{
    let mut s = string_of(command);
    push_str(&mut s, "/");
    push_str(&mut s, id);
    proof { reveal_strlit("/"); }
    s
}

/// A new `String` with the characters of `s`.
pub fn string_of(s: &str) -> (r: String)
    ensures
        r@ == s@,
{
    String::from_str(s)
}

/// An owned copy of an optional borrowed string.
pub fn opt_string(o: Option<&str>) -> (r: Option<String>)
    ensures
        opt_view(r) == opt_str_view(o),
{
    match o {
        Some(x) => Some(string_of(x)),
        None => None,
    }
}

/// The custom id of a component or modal: the command's name, `/`, then the id.
pub open spec fn custom_id_text(command: Seq<char>, id: Seq<char>) -> Seq<char> {
    command + seq!['/'] + id
}

/// A custom id `command/id` splits at its first `/` back into the command and the id,
/// when the command's name holds no `/`.
pub proof fn law_custom_id_splits(command: Seq<char>, id: Seq<char>)
    requires
        !command.contains('/'),
    ensures
        split_once_spec(custom_id_text(command, id), '/') == Some((command, id)),
{
    let s = custom_id_text(command, id);
    let n = command.len() as int;
    assert(s[n] == '/');
    assert(exists|i: int| 0 <= i < s.len() && s[i] == '/');
    let k = choose|i: int| 0 <= i < s.len() && s[i] == '/' && forall|j: int| 0 <= j < i ==> s[j] != '/';
    assert(0 <= n < s.len() && s[n] == '/' && forall|j: int| 0 <= j < n ==> s[j] != '/') by {
        assert forall|j: int| 0 <= j < n implies s[j] != '/' by {
            assert(s[j] == command[j]);
        }
    }
    if k < n {
        assert(s[k] == command[k]);
    }
    assert(k == n);
    assert(s.subrange(0, n) =~= command);
    assert(s.subrange(n + 1, s.len() as int) =~= id);
}

/// Appends `t` to `s`.
pub fn push_str(s: &mut String, t: &str)
    ensures
        final(s)@ == old(s)@ + t@,
{
    s.append(t);
}

/// The one-character text of a decimal digit.
fn digit_str(d: u64) -> (r: &'static str)
    requires
        d < 10,
    ensures
        r@ == seq![digit_char(d as nat)],
{
    proof {
        reveal_strlit("0");
        reveal_strlit("1");
        reveal_strlit("2");
        reveal_strlit("3");
        reveal_strlit("4");
        reveal_strlit("5");
        reveal_strlit("6");
        reveal_strlit("7");
        reveal_strlit("8");
        reveal_strlit("9");
    }
    if d == 0 { "0" }
    else if d == 1 { "1" }
    else if d == 2 { "2" }
    else if d == 3 { "3" }
    else if d == 4 { "4" }
    else if d == 5 { "5" }
    else if d == 6 { "6" }
    else if d == 7 { "7" }
    else if d == 8 { "8" }
    else { "9" }
}

/// The one-character text of a lowercase hexadecimal digit.
fn hex_digit_str(d: u64) -> (r: &'static str)
    requires
        d < 16,
    ensures
        r@ == seq![hex_char(d as nat)],
{
    proof {
        reveal_strlit("a");
        reveal_strlit("b");
        reveal_strlit("c");
        reveal_strlit("d");
        reveal_strlit("e");
        reveal_strlit("f");
    }
    if d < 10 { digit_str(d) }
    else if d == 10 { "a" }
    else if d == 11 { "b" }
    else if d == 12 { "c" }
    else if d == 13 { "d" }
    else if d == 14 { "e" }
    else { "f" }
}

/// Decimal text of `n`, as `n.to_string()` gives it.
pub fn u64_to_string(n: u64) -> (r: String)
    ensures
        r@ == dec_digits(n as nat),
    decreases n,
{
    if n < 10 {
        string_of(digit_str(n))
    } else {
        let mut r = u64_to_string(n / 10);
        push_str(&mut r, digit_str(n % 10));
        r
    }
}

/// Decimal text of `n`, as `n.to_string()` gives it.
pub fn i64_to_string(n: i64) -> (r: String)
    ensures
        r@ == int_text(n as int),
{
    if n < 0 {
        proof { reveal_strlit("-"); }
        let mut r = string_of("-");
        let m: u64 = if n == i64::MIN { 9223372036854775808u64 } else { (-n) as u64 };
        let digits = u64_to_string(m);
        push_str(&mut r, digits.as_str());
        r
    } else {
        u64_to_string(n as u64)
    }
}

/// Text of a boolean, as `b.to_string()` gives it.
pub fn bool_to_string(b: bool) -> (r: String)
    ensures
        r@ == bool_text(b),
{
    proof {
        reveal_strlit("true");
        reveal_strlit("false");
    }
    if b { string_of("true") } else { string_of("false") }
}

/// Lowercase hexadecimal text of `n`, without leading zeros.
pub fn u64_to_hex(n: u64) -> (r: String)
    ensures
        r@ == hex_digits(n as nat),
    decreases n,
{
    if n < 16 {
        string_of(hex_digit_str(n))
    } else {
        let mut r = u64_to_hex(n / 16);
        push_str(&mut r, hex_digit_str(n % 16));
        r
    }
}

/// `s` padded on the left with `'0'` up to `width` characters.
pub fn zero_pad_string(s: String, width: usize) -> (r: String)
    requires
        s@.len() < usize::MAX,
    ensures
        r@ == zero_pad(s@, width as nat),
{
    let len = s.as_str().unicode_len();
    if len >= width {
        return s;
    }
    let mut r = String::new();
    let mut i: usize = 0;
    proof { reveal_strlit("0"); }
    while i < width - len
        invariant
            len == s@.len(),
            len < width,
            i <= width - len,
            r@ == Seq::new(i as nat, |k: int| '0'),
        decreases width - len - i,
    {
        proof { reveal_strlit("0"); }
        push_str(&mut r, "0");
        i = i + 1;
        assert(r@ =~= Seq::new(i as nat, |k: int| '0'));
    }
    push_str(&mut r, s.as_str());
    r
}

/// Whether `s` begins with `p`, as `str::starts_with` answers.
pub fn starts_with(s: &str, p: &str) -> (r: bool)
    ensures
        r == has_prefix(s@, p@),
{
    let n = s.unicode_len();
    let m = p.unicode_len();
    if m > n {
        return false;
    }
    let mut i: usize = 0;
    while i < m
        invariant
            n == s@.len(),
            m == p@.len(),
            m <= n,
            i <= m,
            forall|j: int| 0 <= j < i ==> s@[j] == p@[j],
        decreases m - i,
    {
        if s.get_char(i) != p.get_char(i) {
            assert(s@.subrange(0, m as int)[i as int] != p@[i as int]);
            return false;
        }
        i = i + 1;
    }
    assert(s@.subrange(0, m as int) =~= p@);
    true
}

/// Whether `a` and `b` hold the same characters.
pub fn str_eq(a: &str, b: &str) -> (r: bool)
    ensures
        r == (a@ == b@),
{
    let n = a.unicode_len();
    if n != b.unicode_len() {
        return false;
    }
    let mut i: usize = 0;
    while i < n
        invariant
            n == a@.len(),
            n == b@.len(),
            i <= n,
            forall|j: int| 0 <= j < i ==> a@[j] == b@[j],
        decreases n - i,
    {
        if a.get_char(i) != b.get_char(i) {
            return false;
        }
        i = i + 1;
    }
    assert(a@ =~= b@);
    true
}

/// Index of the first `c` in `s`, if any.
pub fn find_char(s: &str, c: char) -> (r: Option<usize>)
    ensures
        r matches Some(i) ==> first_index_of(s@, c) == Some(i as int) && i < s@.len() && s@[i as int] == c,
        r is None ==> first_index_of(s@, c) is None,
{
    let n = s.unicode_len();
    let mut i: usize = 0;
    while i < n
        invariant
            n == s@.len(),
            i <= n,
            forall|j: int| 0 <= j < i ==> s@[j] != c,
        decreases n - i,
    {
        if s.get_char(i) == c {
            proof {
                assert(s@[i as int] == c);
                let w = choose|k: int| 0 <= k < s@.len() && s@[k] == c && forall|j: int| 0 <= j < k ==> s@[j] != c;
                assert(0 <= i < s@.len() && s@[i as int] == c && forall|j: int| 0 <= j < i ==> s@[j] != c);
                if w < i {
                    assert(s@[w] != c);
                } else if w > i {
                    assert(s@[i as int] != c);
                }
            }
            return Some(i);
        }
        i = i + 1;
    }
    None
}

/// Splits `s` at the first `c`, as `str::split_once` does.
pub fn split_once(s: &str, c: char) -> (r: Option<(String, String)>)
    ensures
        match r {
            Some((a, b)) => split_once_spec(s@, c) == Some((a@, b@)),
            None => split_once_spec(s@, c) is None,
        },
{
    match find_char(s, c) {
        Some(i) => {
            let n = s.unicode_len();
            let a = string_of(s.substring_char(0, i));
            let b = string_of(s.substring_char(i + 1, n));
            Some((a, b))
        },
        None => None,
    }
}

/// Parses `s` as an unsigned decimal or hexadecimal number no larger than
/// `max`, with std's rules: one optional leading `'+'`, then at least one digit.
pub fn parse_unsigned_exec(s: &str, radix: u64, max: u64) -> (r: Option<u64>)
    requires
        radix == 10 || radix == 16,
    ensures
        r matches Some(v) ==> parse_unsigned(s@, radix as nat, max as nat) == Some(v as nat),
        r is None ==> parse_unsigned(s@, radix as nat, max as nat) is None,
{
    let n = s.unicode_len();
    let start: usize = if n > 0 && s.get_char(0) == '+' { 1 } else { 0 };
    let ghost body = unsigned_body(s@);
    assert(body =~= s@.subrange(start as int, n as int));
    if start >= n {
        return None;
    }
    let mut value: u64 = 0;
    let mut i: usize = start;
    while i < n
        invariant
            n == s@.len(),
            start <= i <= n,
            body == s@.subrange(start as int, n as int),
            body == unsigned_body(s@),
            radix == 10 || radix == 16,
            all_digits(s@.subrange(start as int, i as int), radix as nat),
            value as nat == digits_value(s@.subrange(start as int, i as int), radix as nat),
            value <= max,
        decreases n - i,
    {
        let ch = s.get_char(i);
        let d: u64 = if '0' <= ch && ch <= '9' {
            (ch as u64) - ('0' as u64)
        } else if radix == 16 && 'a' <= ch && ch <= 'f' {
            (ch as u64) - ('a' as u64) + 10
        } else if radix == 16 && 'A' <= ch && ch <= 'F' {
            (ch as u64) - ('A' as u64) + 10
        } else {
            proof {
                assert(body[i - start] == ch);
                assert(!digit_ok(ch, radix as nat));
                assert(!all_digits(body, radix as nat));
            }
            return None;
        };
        let ghost prefix = s@.subrange(start as int, i as int);
        let ghost next = s@.subrange(start as int, i + 1);
        assert(next.drop_last() =~= prefix);
        assert(next.last() == ch);
        assert(d as nat == digit_value(ch, radix as nat));
        let next_value: Option<u64> = match value.checked_mul(radix) {
            Some(m) => m.checked_add(d),
            None => None,
        };
        let fits = match next_value {
            Some(v) => v <= max,
            None => false,
        };
        if !fits {
            proof {
                assert(value * radix + d > max);
                assert(digits_value(next, radix as nat) == value * radix + d);
                assert(body.subrange(0, (i + 1 - start) as int) =~= next);
                if all_digits(body, radix as nat) {
                    lemma_digits_value_prefix_mono(body, (i + 1 - start) as int, radix as nat);
                }
            }
            return None;
        }
        proof {
            assert(forall|k: int| 0 <= k < next.len() ==> #[trigger] next[k] == (if k < prefix.len() { prefix[k] } else { ch }));
        }
        value = next_value.unwrap();
        i = i + 1;
    }
    assert(s@.subrange(start as int, n as int) =~= body);
    Some(value)
}

/// The value of a digit prefix never exceeds the value of a longer prefix.
pub proof fn lemma_digits_value_prefix_mono(s: Seq<char>, k: int, radix: nat)
    requires
        0 <= k <= s.len(),
        radix > 0,
        all_digits(s, radix),
    ensures
        digits_value(s.subrange(0, k), radix) <= digits_value(s, radix),
    decreases s.len() - k,
{
    if k < s.len() {
        lemma_digits_value_prefix_mono(s, k + 1, radix);
        let a = s.subrange(0, k + 1);
        assert(a.drop_last() =~= s.subrange(0, k));
        let v = digits_value(s.subrange(0, k), radix);
        let d = digit_value(a.last(), radix);
        assert(v <= v * radix + d) by (nonlinear_arith)
            requires radix > 0;
    } else {
        assert(s.subrange(0, k) =~= s);
    }
}

} // verus!
