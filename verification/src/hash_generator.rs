use vstd::prelude::*;
use vstd::arithmetic::power2::{pow2, lemma_pow2_unfold, lemma2_to64};

verus! {

/// The character of one binary digit.
pub open spec fn bit_char(b: nat) -> char {
    if b == 0 { '0' } else { '1' }
}

/// The binary representation of `n`, most significant digit first,
/// without leading zeros ("0" for zero), as `format!("{:b}", n)` writes it.
pub open spec fn binary_digits(n: nat) -> Seq<char>
    decreases n,
{
    if n < 2 {
        seq![bit_char(n)]
    } else {
        binary_digits(n / 2).push(bit_char(n % 2))
    }
}

/// How many leading zeros bring a binary string of length `len` to a multiple of six.
pub open spec fn pad_len(len: nat) -> nat {
    ((6 - len % 6) % 6) as nat
}

/// `n` in binary, left-padded with zeros to a length that is a multiple of six.
pub open spec fn padded_binary(n: nat) -> Seq<char> {
    Seq::new(pad_len(binary_digits(n).len()), |i: int| '0') + binary_digits(n)
}

/// Calls `String::push`: the string afterwards is the old one with `c` appended.
#[verifier::external_body]
fn push_char(s: &mut String, c: char)
    ensures
        final(s)@ == old(s)@.push(c),
{
    s.push(c);
}

proof fn lemma_binary_digits_nonempty(n: nat)
    ensures
        binary_digits(n).len() >= 1,
    decreases n,
{
    if n >= 2 {
        lemma_binary_digits_nonempty(n / 2);
    }
}

/// Writes `number` in binary, padded with leading zeros to a multiple of six digits.
pub fn number_to_binary_mod6(number: u32) -> (res: String)
    ensures
        res@ == padded_binary(number as nat),
{
    // Digits are produced least significant first into `rev`.
    let mut rev: Vec<char> = Vec::new();
    let mut m: u32 = number;
    let ghost mut acc: Seq<char> = Seq::empty();
    while m >= 2
        invariant
            binary_digits(number as nat) == binary_digits(m as nat) + acc,
            rev@.len() == acc.len(),
            forall|i: int| 0 <= i < acc.len() ==> #[trigger] rev@[i] == acc[acc.len() - 1 - i],
        decreases m,
    {
        let c = if m % 2 == 0 { '0' } else { '1' };
        proof {
            assert(binary_digits(m as nat) == binary_digits((m / 2) as nat).push(c));
            assert(binary_digits(number as nat) == binary_digits((m / 2) as nat) + (seq![c] + acc));
            acc = seq![c] + acc;
        }
        rev.push(c);
        m = m / 2;
    }
    let c = if m == 0 { '0' } else { '1' };
    proof {
        assert(binary_digits(m as nat) == seq![c]);
        acc = seq![c] + acc;
    }
    rev.push(c);
    assert(binary_digits(number as nat) =~= acc);
    let len = rev.len();
    let pad = (6 - len % 6) % 6;
    let ghost zeros = Seq::new(pad as nat, |i: int| '0');
    let mut s = String::new();
    let mut k: usize = 0;
    while k < pad
        invariant
            k <= pad,
            s@ =~= Seq::new(k as nat, |i: int| '0'),
        decreases pad - k,
    {
        push_char(&mut s, '0');
        k = k + 1;
    }
    let mut j: usize = 0;
    while j < len
        invariant
            len == rev@.len(),
            len == acc.len(),
            j <= len,
            forall|i: int| 0 <= i < acc.len() ==> #[trigger] rev@[i] == acc[acc.len() - 1 - i],
            s@ =~= zeros + acc.take(j as int),
        decreases len - j,
    {
        let c = rev[len - 1 - j];
        assert(acc.take(j + 1) =~= acc.take(j as int).push(acc[j as int]));
        push_char(&mut s, c);
        j = j + 1;
    }
    assert(acc.take(len as int) =~= acc);
    s
}


/// The value of one binary digit character.
pub open spec fn bit_value(c: char) -> nat {
    if c == '1' { 1 } else { 0 }
}

/// The number that a string of binary digits denotes, most significant digit first.
pub open spec fn bits_value(s: Seq<char>) -> nat
    decreases s.len(),
{
    if s.len() == 0 {
        0
    } else {
        2 * bits_value(s.drop_last()) + bit_value(s.last())
    }
}

/// The `k`-th group of six characters of `s` (the last group may be shorter).
pub open spec fn chunk_of(s: Seq<char>, k: int) -> Seq<char> {
    s.subrange(6 * k, if 6 * k + 6 <= s.len() { 6 * k + 6 } else { s.len() as int })
}

/// How many groups of six characters `s` splits into.
pub open spec fn chunk_count(s: Seq<char>) -> nat {
    ((s.len() + 5) / 6) as nat
}

/// The numbers denoted by the groups of six binary digits of `s`, in order.
pub open spec fn chunk_values(s: Seq<char>) -> Seq<nat> {
    Seq::new(chunk_count(s), |k: int| bits_value(chunk_of(s, k)))
}

proof fn lemma_bits_value_bound(s: Seq<char>)
    ensures
        bits_value(s) < pow2(s.len()),
    decreases s.len(),
{
    if s.len() > 0 {
        lemma_bits_value_bound(s.drop_last());
        lemma_pow2_unfold(s.len());
    } else {
        lemma2_to64();
    }
}

proof fn lemma_padded_binary_len(n: nat)
    ensures
        padded_binary(n).len() % 6 == 0,
        padded_binary(n).len() >= 6,
        forall|i: int| 0 <= i < padded_binary(n).len() ==>
            (#[trigger] padded_binary(n)[i] == '0' || padded_binary(n)[i] == '1'),
{
    lemma_binary_digits_nonempty(n);
    lemma_binary_digits_are_bits(n);
    let b = binary_digits(n);
    let p = padded_binary(n);
    assert forall|i: int| 0 <= i < p.len() implies (#[trigger] p[i] == '0' || p[i] == '1') by {
        if i >= pad_len(b.len()) {
            assert(p[i] == b[i - pad_len(b.len())]);
        }
    }
}

proof fn lemma_binary_digits_are_bits(n: nat)
    ensures
        forall|i: int| 0 <= i < binary_digits(n).len() ==>
            (#[trigger] binary_digits(n)[i] == '0' || binary_digits(n)[i] == '1'),
    decreases n,
{
    if n >= 2 {
        lemma_binary_digits_are_bits(n / 2);
        let b = binary_digits(n);
        assert forall|i: int| 0 <= i < b.len() implies (#[trigger] b[i] == '0' || b[i] == '1') by {
            if i < b.len() - 1 {
                assert(b[i] == binary_digits(n / 2)[i]);
            }
        }
    }
}

/// Splits `num`'s padded binary form into groups of six digits and reads each group
/// as a number: the base-64 digits of `num`, most significant first.
pub fn binary_to_chunks_and_numbers(num: u32) -> (res: Vec<usize>)
    ensures
        res@.len() == chunk_values(padded_binary(num as nat)).len(),
        forall|k: int| 0 <= k < res@.len() ==>
            #[trigger] res@[k] as nat == chunk_values(padded_binary(num as nat))[k],
        forall|k: int| 0 <= k < res@.len() ==> #[trigger] res@[k] < 64,
{
    let binary = number_to_binary_mod6(num);
    let text = binary.as_str();
    let n = text.unicode_len();
    let ghost s = padded_binary(num as nat);
    proof {
        lemma_padded_binary_len(num as nat);
    }
    let mut numbers: Vec<usize> = Vec::new();
    let mut start: usize = 0;
    while start < n
        invariant
            n == s.len(),
            text@ == s,
            s.len() % 6 == 0,
            start % 6 == 0,
            start <= n,
            numbers@.len() == start / 6,
            forall|k: int| 0 <= k < numbers@.len() ==>
                #[trigger] numbers@[k] as nat == bits_value(chunk_of(s, k)),
            forall|k: int| 0 <= k < numbers@.len() ==> #[trigger] numbers@[k] < 64,
        decreases n - start,
    {
        let end = start + 6;
        proof {
            lemma2_to64();
        }
        let mut value: usize = 0;
        let mut j: usize = start;
        while j < end
            invariant
                n == s.len(),
                text@ == s,
                start + 6 == end,
                end <= n,
                start <= j <= end,
                value as nat == bits_value(s.subrange(start as int, j as int)),
                value < pow2((j - start) as nat),
            decreases end - j,
        {
            let c = text.get_char(j);
            proof {
                let t = s.subrange(start as int, j + 1);
                assert(t.drop_last() =~= s.subrange(start as int, j as int));
                lemma_pow2_unfold((j + 1 - start) as nat);
                lemma_bits_value_bound(t);
                lemma2_to64();
            }
            let bit: usize = if c == '1' { 1 } else { 0 };
            value = 2 * value + bit;
            j = j + 1;
        }
        proof {
            assert(chunk_of(s, (start / 6) as int) =~= s.subrange(start as int, end as int));
        }
        numbers.push(value);
        start = end;
    }
    numbers
}

/// The character that stands for the base-64 digit `i` in a short hash:
/// `a`..`z`, then `A`..`Z`, then `0`..`9`, then `*` and `-`.
pub open spec fn hash_alphabet_char(i: nat) -> char {
    if i < 26 {
        (97 + i) as char
    } else if i < 52 {
        (65 + (i - 26)) as char
    } else if i < 62 {
        (48 + (i - 52)) as char
    } else if i == 62 {
        '*'
    } else {
        '-'
    }
}

/// The short hash of ticket number `n`: its base-64 digits written in the hash alphabet.
pub open spec fn short_hash(n: nat) -> Seq<char> {
    chunk_values(padded_binary(n)).map_values(|v: nat| hash_alphabet_char(v))
}

/// The 64-character table of the hash alphabet.
fn hash_alphabet() -> (map: Vec<char>)
    ensures
        map@.len() == 64,
        forall|i: int| 0 <= i < 64 ==> #[trigger] map@[i] == hash_alphabet_char(i as nat),
{
    let mut map: Vec<char> = Vec::new();
    let mut i: u8 = 0;
    while i < 26
        invariant
            i <= 26,
            map@.len() == i,
            forall|k: int| 0 <= k < map@.len() ==> #[trigger] map@[k] == hash_alphabet_char(k as nat),
        decreases 26 - i,
    {
        map.push((97u8 + i) as char);
        i = i + 1;
    }
    let mut i: u8 = 0;
    while i < 26
        invariant
            i <= 26,
            map@.len() == 26 + i,
            forall|k: int| 0 <= k < map@.len() ==> #[trigger] map@[k] == hash_alphabet_char(k as nat),
        decreases 26 - i,
    {
        map.push((65u8 + i) as char);
        i = i + 1;
    }
    let mut i: u8 = 0;
    while i < 10
        invariant
            i <= 10,
            map@.len() == 52 + i,
            forall|k: int| 0 <= k < map@.len() ==> #[trigger] map@[k] == hash_alphabet_char(k as nat),
        decreases 10 - i,
    {
        map.push((48u8 + i) as char);
        i = i + 1;
    }
    map.push('*');
    map.push('-');
    map
}

/// The short hash under which the URL with ticket `num` is stored: the base-64 digits of
/// `num` read as an unsigned 32-bit number, written with the hash alphabet.
pub fn character_mapper(num: i32) -> (res: String)
    ensures
        res@ == short_hash((num as u32) as nat),
{
    let indexes = binary_to_chunks_and_numbers(num as u32);
    let map = hash_alphabet();
    let ghost target = short_hash((num as u32) as nat);
    let mut res = String::new();
    let mut k: usize = 0;
    while k < indexes.len()
        invariant
            k <= indexes@.len(),
            indexes@.len() == target.len(),
            map@.len() == 64,
            forall|i: int| 0 <= i < 64 ==> #[trigger] map@[i] == hash_alphabet_char(i as nat),
            forall|i: int| 0 <= i < indexes@.len() ==> #[trigger] indexes@[i] < 64,
            forall|i: int| 0 <= i < indexes@.len() ==>
                #[trigger] hash_alphabet_char(indexes@[i] as nat) == target[i],
            res@ =~= target.take(k as int),
        decreases indexes@.len() - k,
    {
        let index = indexes[k];
        proof {
            assert(hash_alphabet_char(indexes@[k as int] as nat) == target[k as int]);
            assert(target.take(k + 1) =~= target.take(k as int).push(target[k as int]));
        }
        push_char(&mut res, map[index]);
        k = k + 1;
    }
    assert(target.take(k as int) =~= target);
    res
}


/// The base-64 digit that a character of the hash alphabet stands for.
pub open spec fn hash_alphabet_index(c: char) -> nat {
    let x = c as int;
    if 97 <= x <= 122 {
        (x - 97) as nat
    } else if 65 <= x <= 90 {
        (x - 65 + 26) as nat
    } else if 48 <= x <= 57 {
        (x - 48 + 52) as nat
    } else if c == '*' {
        62
    } else {
        63
    }
}

/// The number denoted by a sequence of base-64 digits, most significant first.
pub open spec fn digits_value(ds: Seq<nat>) -> nat
    decreases ds.len(),
{
    if ds.len() == 0 {
        0
    } else {
        64 * digits_value(ds.drop_last()) + ds.last()
    }
}

/// The ticket number that a short hash stands for.
pub open spec fn decode_short_hash(h: Seq<char>) -> nat {
    digits_value(h.map_values(|c: char| hash_alphabet_index(c)))
}

proof fn lemma_alphabet_roundtrip(i: nat)
    requires
        i < 64,
    ensures
        hash_alphabet_index(hash_alphabet_char(i)) == i,
{
}

proof fn lemma_bits_value_concat(a: Seq<char>, b: Seq<char>)
    ensures
        bits_value(a + b) == bits_value(a) * pow2(b.len()) + bits_value(b),
    decreases b.len(),
{
    if b.len() == 0 {
        assert(a + b =~= a);
        lemma2_to64();
        assert(bits_value(b) == 0);
    } else {
        assert((a + b).drop_last() =~= a + b.drop_last());
        assert((a + b).last() == b.last());
        lemma_bits_value_concat(a, b.drop_last());
        lemma_pow2_unfold(b.len());
        let x = bits_value(a);
        let p = pow2((b.len() - 1) as nat);
        assert(2 * (x * p) == x * (2 * p)) by (nonlinear_arith);
    }
}

proof fn lemma_zeros_value(k: nat)
    ensures
        bits_value(Seq::new(k, |i: int| '0')) == 0,
    decreases k,
{
    if k > 0 {
        assert(Seq::new(k, |i: int| '0').drop_last() =~= Seq::new((k - 1) as nat, |i: int| '0'));
        lemma_zeros_value((k - 1) as nat);
    }
}

proof fn lemma_binary_digits_value(n: nat)
    ensures
        bits_value(binary_digits(n)) == n,
    decreases n,
{
    if n < 2 {
        assert(binary_digits(n).drop_last() =~= Seq::<char>::empty());
        assert(bits_value(Seq::<char>::empty()) == 0);
        assert(binary_digits(n).last() == bit_char(n));
        assert(bit_value(bit_char(n)) == n);
    } else {
        assert(binary_digits(n).drop_last() =~= binary_digits(n / 2));
        lemma_binary_digits_value(n / 2);
        assert(bit_value(bit_char(n % 2)) == n % 2);
        assert(bits_value(binary_digits(n)) == 2 * (n / 2) + n % 2);
    }
}

/// The padded binary form of `n` still denotes `n`.
proof fn lemma_padded_binary_value(n: nat)
    ensures
        bits_value(padded_binary(n)) == n,
{
    let b = binary_digits(n);
    let z = Seq::new(pad_len(b.len()), |i: int| '0');
    lemma_bits_value_concat(z, b);
    lemma_zeros_value(pad_len(b.len()));
    lemma_binary_digits_value(n);
}

/// Reading a string of binary digits in groups of six gives its base-64 digits.
proof fn lemma_chunks_value(s: Seq<char>)
    requires
        s.len() % 6 == 0,
    ensures
        digits_value(chunk_values(s)) == bits_value(s),
    decreases s.len(),
{
    if s.len() == 0 {
        assert(chunk_values(s) =~= Seq::<nat>::empty());
    } else {
        let t = s.take(s.len() - 6);
        let c = s.skip(s.len() - 6);
        assert(s =~= t + c);
        let cv = chunk_values(s);
        assert forall|k: int| 0 <= k < chunk_count(t) implies chunk_of(s, k) =~= chunk_of(t, k) by {}
        assert(cv.drop_last() =~= chunk_values(t));
        assert(chunk_of(s, cv.len() - 1) =~= c);
        lemma_chunks_value(t);
        lemma_bits_value_concat(t, c);
        lemma2_to64();
    }
}

proof fn lemma_chunk_values_small(s: Seq<char>)
    ensures
        forall|k: int| 0 <= k < chunk_values(s).len() ==> #[trigger] chunk_values(s)[k] < 64,
{
    lemma2_to64();
    assert forall|k: int| 0 <= k < chunk_values(s).len() implies #[trigger] chunk_values(s)[k] < 64 by {
        lemma_bits_value_bound(chunk_of(s, k));
    }
}

/// Decoding the short hash of a ticket number gives the number back.
pub proof fn lemma_short_hash_decodes(n: nat)
    ensures
        decode_short_hash(short_hash(n)) == n,
{
    let s = padded_binary(n);
    let cv = chunk_values(s);
    lemma_chunk_values_small(s);
    assert forall|k: int| 0 <= k < cv.len() implies hash_alphabet_index(#[trigger] hash_alphabet_char(cv[k])) == cv[k] by {
        lemma_alphabet_roundtrip(cv[k]);
    }
    assert(short_hash(n).map_values(|c: char| hash_alphabet_index(c)) =~= cv);
    lemma_padded_binary_len(n);
    lemma_chunks_value(s);
    lemma_padded_binary_value(n);
}

/// Distinct tickets get distinct short hashes: `character_mapper` is injective.
pub proof fn lemma_character_mapper_injective(a: i32, b: i32)
    ensures
        short_hash((a as u32) as nat) == short_hash((b as u32) as nat) ==> a == b,
{
    lemma_short_hash_decodes((a as u32) as nat);
    lemma_short_hash_decodes((b as u32) as nat);
    assert((a as u32) == (b as u32) ==> a == b) by (bit_vector);
}

} // verus!
