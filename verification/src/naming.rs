//! Default names for new elements and diagrams: `<base>_<n>` with the
//! smallest positive `n` that no existing `<base>_<number>` name carries.
use crate::id::UmlId;
use crate::repository::{diagram_views, UmlModel, UmlModelView};
use crate::text::owned;
use vstd::prelude::*;

verus! {

// ─── Decimal numbers ─────────────────────────────────────────────────

/// Whether a character is an ASCII decimal digit.
pub open spec fn is_digit(c: char) -> bool {
    '0' <= c && c <= '9'
}

/// The value of a decimal digit character.
pub open spec fn digit_value(c: char) -> int {
    c as int - '0' as int
}

/// The character of a decimal digit.
pub open spec fn digit_char(d: int) -> char {
    if d == 0 {
        '0'
    } else if d == 1 {
        '1'
    } else if d == 2 {
        '2'
    } else if d == 3 {
        '3'
    } else if d == 4 {
        '4'
    } else if d == 5 {
        '5'
    } else if d == 6 {
        '6'
    } else if d == 7 {
        '7'
    } else if d == 8 {
        '8'
    } else {
        '9'
    }
}

/// The value of a string of decimal digits (most significant first).
pub open spec fn digits_value(s: Seq<char>) -> int
    decreases s.len(),
{
    if s.len() == 0 {
        0
    } else {
        digits_value(s.drop_last()) * 10 + digit_value(s.last())
    }
}

/// The text after an optional leading `+`.
pub open spec fn unsigned_digits(s: Seq<char>) -> Seq<char> {
    if s.len() > 0 && s[0] == '+' {
        s.drop_first()
    } else {
        s
    }
}

/// Every character is a decimal digit.
pub open spec fn all_digits(d: Seq<char>) -> bool {
    forall|i: int| 0 <= i < d.len() ==> is_digit(#[trigger] d[i])
}

/// What `u64::from_str` accepts: an optional `+`, then at least one decimal
/// digit, with a value that fits in 64 bits; the value parsed.
pub open spec fn parsed_u64(s: Seq<char>) -> Option<int> {
    let d = unsigned_digits(s);
    if d.len() > 0 && all_digits(d) && digits_value(d) <= u64::MAX {
        Some(digits_value(d))
    } else {
        None
    }
}

/// The decimal text of a number, without leading zeros.
pub open spec fn decimal(n: nat) -> Seq<char>
    decreases n,
{
    if n < 10 {
        seq![digit_char(n as int)]
    } else {
        decimal(n / 10) + seq![digit_char((n % 10) as int)]
    }
}

/// Extending a digit string by one digit multiplies its value by ten and
/// adds the digit.
proof fn lemma_digits_step(s: Seq<char>, k: int)
    requires
        0 <= k < s.len(),
    ensures
        digits_value(s.take(k + 1)) == digits_value(s.take(k)) * 10 + digit_value(s[k]),
{
    assert(s.take(k + 1).drop_last() =~= s.take(k));
}

/// The value of a prefix of a digit string is at most the value of the whole.
proof fn lemma_digits_prefix(s: Seq<char>, k: int)
    requires
        0 <= k <= s.len(),
        forall|i: int| 0 <= i < s.len() ==> is_digit(#[trigger] s[i]),
    ensures
        0 <= digits_value(s.take(k)) <= digits_value(s),
    decreases s.len(),
{
    if s.len() > 0 {
        let t = s.drop_last();
        assert forall|i: int| 0 <= i < t.len() implies is_digit(#[trigger] t[i]) by {
            assert(t[i] == s[i]);
        }
        if k == s.len() {
            assert(s.take(k) =~= s);
            lemma_digits_prefix(t, t.len() as int);
            assert(t.take(t.len() as int) =~= t);
        } else {
            lemma_digits_prefix(t, k);
            assert(t.take(k) =~= s.take(k));
            assert(is_digit(s.last()));
        }
    } else {
        assert(s.take(k) =~= s);
    }
}

/// Parses a number as `u64::from_str` does.
pub fn parse_u64(s: &str) -> (r: Option<u64>)
    ensures
        match r {
            Some(v) => parsed_u64(s@) == Some(v as int),
            None => parsed_u64(s@) is None,
        },
{
    let n = s.unicode_len();
    let start: usize = if n > 0 && s.get_char(0) == '+' {
        1
    } else {
        0
    };
    let ghost d = unsigned_digits(s@);
    assert(d =~= s@.subrange(start as int, n as int));
    if start == n {
        return None;
    }
    let mut value: u64 = 0;
    let mut i: usize = start;
    while i < n
        invariant
            n == s@.len(),
            start < n,
            d == unsigned_digits(s@),
            d == s@.subrange(start as int, n as int),
            start <= i <= n,
            forall|j: int| 0 <= j < i - start ==> is_digit(#[trigger] d[j]),
            value == digits_value(d.take(i - start)),
        decreases n - i,
    {
        let c = s.get_char(i);
        assert(c == d[i - start]);
        if !('0' <= c && c <= '9') {
            assert(!is_digit(d[i - start]));
            return None;
        }
        let digit = (c as u32 - '0' as u32) as u64;
        proof {
            lemma_digits_step(d, i - start);
        }
        if value > (u64::MAX - digit) / 10 {
            proof {
                assert(digits_value(d.take(i - start + 1)) > u64::MAX) by (nonlinear_arith)
                    requires
                        value > (u64::MAX - digit) / 10,
                        digit <= 9,
                        digits_value(d.take(i - start + 1)) == value * 10 + digit,
                ;
                if all_digits(d) {
                    lemma_digits_prefix(d, i - start + 1);
                    assert(digits_value(d) > u64::MAX);
                }
                assert(parsed_u64(s@) is None);
            }
            return None;
        }
        value = value * 10 + digit;
        i += 1;
    }
    assert(d.take(n - start) =~= d);
    Some(value)
}

/// The text of a decimal digit.
fn digit_str(d: u64) -> (s: &'static str)
    requires
        d < 10,
    ensures
        s@ == seq![digit_char(d as int)],
{
    proof {
        reveal_strlit("0");
        reveal_strlit("1");
        reveal_strlit("2");
        reveal_strlit("3");
        reveal_strlit("4");
        reveal_strlit("5");
        reveal_strlit("6");
        reveal_strlit("7");
        reveal_strlit("8");
        reveal_strlit("9");
    }
    if d == 0 {
        "0"
    } else if d == 1 {
        "1"
    } else if d == 2 {
        "2"
    } else if d == 3 {
        "3"
    } else if d == 4 {
        "4"
    } else if d == 5 {
        "5"
    } else if d == 6 {
        "6"
    } else if d == 7 {
        "7"
    } else if d == 8 {
        "8"
    } else {
        "9"
    }
}

/// The decimal text of a number, as `u64::to_string` writes it.
pub fn decimal_text(n: u64) -> (s: String)
    ensures
        s@ == decimal(n as nat),
    decreases n,
{
    if n < 10 {
        owned(digit_str(n))
    } else {
        let mut s = decimal_text(n / 10);
        s.append(digit_str(n % 10));
        s
    }
}

// ─── The first free number ───────────────────────────────────────────

/// `n` is the smallest positive number that `taken` does not contain.
pub open spec fn is_first_free(taken: Set<int>, n: int) -> bool {
    &&& n >= 1
    &&& !taken.contains(n)
    &&& forall|k: int| 1 <= k < n ==> taken.contains(k)
}

/// The smallest positive number not taken.
pub open spec fn first_free(taken: Set<int>) -> int {
    choose|n: int| is_first_free(taken, n)
}

/// There is at most one first free number.
pub proof fn lemma_first_free_unique(taken: Set<int>, n: int)
    requires
        is_first_free(taken, n),
    ensures
        first_free(taken) == n,
{
    let m = first_free(taken);
    assert(is_first_free(taken, m));
    if m < n {
        assert(taken.contains(m));
    }
    if n < m {
        assert(taken.contains(n));
    }
}

/// The first position of a number in a list.
fn find_number(v: &Vec<u64>, x: u64) -> (r: Option<usize>)
    ensures
        match r {
            Some(p) => p < v@.len() && v@[p as int] == x,
            None => forall|q: int| 0 <= q < v@.len() ==> v@[q] != x,
        },
{
    let mut i: usize = 0;
    while i < v.len()
        invariant
            i <= v@.len(),
            forall|q: int| 0 <= q < i ==> v@[q] != x,
        decreases v@.len() - i,
    {
        if v[i] == x {
            return Some(i);
        }
        i += 1;
    }
    None
}

/// The numbers of a list, as a set of integers.
pub open spec fn number_set(s: Seq<u64>) -> Set<int> {
    Set::new(|k: int| exists|j: int| 0 <= j < s.len() && s[j] == k)
}

/// The smallest positive number that is not in the list.
fn first_free_number(numbers: Vec<u64>) -> (n: u64)
    requires
        numbers@.len() < usize::MAX,
    ensures
        is_first_free(number_set(numbers@), n as int),
{
    let ghost orig = numbers@;
    let mut work = numbers;
    let mut c: u64 = 1;
    assert forall|i: int| 0 <= i < work@.len() implies number_set(orig).contains(
        #[trigger] work@[i] as int,
    ) by {
        assert(orig[i] == work@[i]);
    }
    assert forall|j: int| 0 <= j < orig.len() && orig[j] >= c implies number_set(work@).contains(
        #[trigger] orig[j] as int,
    ) by {
        assert(orig[j] == work@[j]);
    }
    loop
        invariant
            orig == numbers@,
            1 <= c,
            c - 1 + work@.len() == orig.len(),
            orig.len() < usize::MAX,
            forall|k: int| 1 <= k < c ==> #[trigger] number_set(orig).contains(k),
            forall|j: int|
                0 <= j < orig.len() && orig[j] >= c ==> number_set(work@).contains(
                    #[trigger] orig[j] as int,
                ),
            forall|i: int| 0 <= i < work@.len() ==> number_set(orig).contains(#[trigger] work@[i] as int),
        decreases work@.len(),
    {
        match find_number(&work, c) {
            None => {
                assert(!number_set(orig).contains(c as int)) by {
                    if number_set(orig).contains(c as int) {
                        let j = choose|j: int| 0 <= j < orig.len() && orig[j] == c;
                        assert(number_set(work@).contains(orig[j] as int));
                        let q = choose|q: int| 0 <= q < work@.len() && work@[q] == orig[j];
                        assert(work@[q] != c);
                    }
                }
                return c;
            },
            Some(p) => {
                let ghost before = work@;
                assert(number_set(orig).contains(before[p as int] as int));
                work.remove(p);
                assert forall|j: int| 0 <= j < orig.len() && orig[j] >= c + 1 implies number_set(
                    work@,
                ).contains(#[trigger] orig[j] as int) by {
                    assert(number_set(before).contains(orig[j] as int));
                    let q = choose|q: int| 0 <= q < before.len() && before[q] == orig[j];
                    if q < p {
                        assert(work@[q] == before[q]);
                    } else {
                        assert(q != p);
                        assert(work@[q - 1] == before[q]);
                    }
                }
                assert forall|i: int| 0 <= i < work@.len() implies number_set(orig).contains(
                    #[trigger] work@[i] as int,
                ) by {
                    if i < p {
                        assert(work@[i] == before[i]);
                    } else {
                        assert(work@[i] == before[i + 1]);
                    }
                }
                c = c + 1;
            },
        }
    }
}

// ─── Default names ───────────────────────────────────────────────────

/// The number that a name of the form `<base>_<number>` carries, if it has
/// that form.
pub open spec fn suffix_number(name: Seq<char>, base: Seq<char>) -> Option<int> {
    let prefix = base + "_"@;
    if prefix.len() <= name.len() && name.take(prefix.len() as int) == prefix {
        parsed_u64(name.skip(prefix.len() as int))
    } else {
        None
    }
}

/// The numbers carried by the names of the form `<base>_<number>`.
pub open spec fn taken_numbers(names: Set<Seq<char>>, base: Seq<char>) -> Set<int> {
    Set::new(|v: int| exists|name: Seq<char>| names.contains(name) && suffix_number(name, base) == Some(v))
}

/// The names of a model's elements.
pub open spec fn element_names(m: UmlModelView) -> Set<Seq<char>> {
    Set::new(|s: Seq<char>| exists|id: UmlId| m.elements.contains_key(id) && m.elements[id].name() == s)
}

/// The names of a model's diagrams.
pub open spec fn diagram_names(m: UmlModelView) -> Set<Seq<char>> {
    Set::new(|s: Seq<char>| exists|i: int| 0 <= i < m.diagrams.len() && m.diagrams[i].name == s)
}

/// `<base>_<n>`.
pub open spec fn numbered_name(base: Seq<char>, n: int) -> Seq<char> {
    base + "_"@ + decimal(n as nat)
}

/// The default name for a new item among existing names: `<base>_<n>` with
/// the smallest positive `n` that no existing `<base>_<number>` name
/// carries.
pub open spec fn unique_name(names: Set<Seq<char>>, base: Seq<char>) -> Seq<char> {
    numbered_name(base, first_free(taken_numbers(names, base)))
}

/// The number that `name` carries as `<base>_<number>`, if it has that form.
pub fn suffix_of(name: &str, base: &str) -> (r: Option<u64>)
    ensures
        match r {
            Some(v) => suffix_number(name@, base@) == Some(v as int),
            None => suffix_number(name@, base@) is None,
        },
{
    proof {
        reveal_strlit("_");
    }
    let ghost prefix = base@ + "_"@;
    let n = name.unicode_len();
    let b = base.unicode_len();
    if n <= b {
        return None;
    }
    let mut i: usize = 0;
    while i < b
        invariant
            n == name@.len(),
            b == base@.len(),
            b < n,
            prefix == base@ + "_"@,
            prefix.len() == b + 1,
            i <= b,
            forall|j: int| 0 <= j < i ==> name@[j] == base@[j],
        decreases b - i,
    {
        if name.get_char(i) != base.get_char(i) {
            assert(name@.take(prefix.len() as int)[i as int] != prefix[i as int]);
            return None;
        }
        i += 1;
    }
    if name.get_char(b) != '_' {
        assert(name@.take(prefix.len() as int)[b as int] != prefix[b as int]);
        return None;
    }
    assert(name@.take(prefix.len() as int) =~= prefix);
    let rest = name.substring_char(b + 1, n);
    assert(rest@ =~= name@.skip(prefix.len() as int));
    parse_u64(rest)
}

/// `<base>_<n>` as text.
fn numbered(base: &str, n: u64) -> (r: String)
    ensures
        r@ == numbered_name(base@, n as int),
{
    let mut s = owned(base);
    s.append("_");
    let d = decimal_text(n);
    s.append(d.as_str());
    s
}

/// The default name for a new element: `<base>_<n>` with the smallest
/// positive `n` that no element name `<base>_<number>` carries.
pub fn generate_unique_name(model: &UmlModel, base: &str) -> (r: String)
    requires
        model.wf(),
        model@.elements.len() < usize::MAX,
    ensures
        r@ == unique_name(element_names(model@), base@),
        !element_names(model@).contains(r@),
{
    let elems = model.elements();
    let ghost m = model@;
    let mut numbers: Vec<u64> = Vec::new();
    let mut i: usize = 0;
    while i < elems.len()
        invariant
            i <= elems@.len(),
            elems@.len() == m.elements.len(),
            elems@.len() < usize::MAX,
            numbers@.len() <= i,
            forall|v: int|
                #[trigger] number_set(numbers@).contains(v) <==> exists|j: int|
                    0 <= j < i && suffix_number(elems@[j]@.name(), base@) == Some(v),
        decreases elems@.len() - i,
    {
        let ghost before = numbers@;
        match suffix_of(elems[i].name(), base) {
            Some(v) => {
                numbers.push(v);
                assert forall|w: int| #[trigger] number_set(numbers@).contains(w) <==> exists|j: int|
                    0 <= j < i + 1 && suffix_number(elems@[j]@.name(), base@) == Some(w) by {
                    if number_set(numbers@).contains(w) {
                        let k = choose|k: int| 0 <= k < numbers@.len() && numbers@[k] == w;
                        if k < before.len() {
                            assert(numbers@[k] == before[k]);
                            assert(number_set(before).contains(w));
                        }
                    }
                    if exists|j: int| 0 <= j < i + 1 && suffix_number(elems@[j]@.name(), base@) == Some(w) {
                        let j = choose|j: int| 0 <= j < i + 1 && suffix_number(elems@[j]@.name(), base@) == Some(w);
                        if j < i {
                            assert(number_set(before).contains(w));
                            let k = choose|k: int| 0 <= k < before.len() && before[k] == w;
                            assert(numbers@[k] == before[k]);
                        } else {
                            assert(numbers@[before.len() as int] == v);
                        }
                    }
                }
            },
            None => {},
        }
        i += 1;
    }
    let n = first_free_number(numbers);
    proof {
        let taken = taken_numbers(element_names(m), base@);
        assert forall|v: int| number_set(numbers@).contains(v) <==> taken.contains(v) by {
            if number_set(numbers@).contains(v) {
                let j = choose|j: int| 0 <= j < elems@.len() && suffix_number(elems@[j]@.name(), base@) == Some(v);
                let id = elems@[j]@.id();
                assert(m.elements.contains_key(id) && m.elements[id].name() == elems@[j]@.name());
                assert(element_names(m).contains(elems@[j]@.name()));
            }
            if taken.contains(v) {
                let name = choose|name: Seq<char>| element_names(m).contains(name) && suffix_number(name, base@) == Some(v);
                let id = choose|id: UmlId| m.elements.contains_key(id) && m.elements[id].name() == name;
                let j = choose|j: int| 0 <= j < elems@.len() && elems@[j]@.id() == id;
                assert(elems@[j]@.name() == name);
            }
        }
        assert(number_set(numbers@) =~= taken);
        lemma_first_free_unique(taken, n as int);
        lemma_numbered_name_carries(base@, n as nat);
    }
    numbered(base, n)
}

/// The default name for a new diagram: `<base>_<n>` with the smallest
/// positive `n` that no diagram name `<base>_<number>` carries.
pub fn generate_unique_diagram_name(model: &UmlModel, base: &str) -> (r: String)
    requires
        model@.diagrams.len() < usize::MAX,
    ensures
        r@ == unique_name(diagram_names(model@), base@),
        !diagram_names(model@).contains(r@),
{
    let diags = model.diagrams();
    let ghost m = model@;
    assert(diags@.len() == m.diagrams.len());
    let mut numbers: Vec<u64> = Vec::new();
    let mut i: usize = 0;
    while i < diags.len()
        invariant
            i <= diags@.len(),
            diagram_views(diags@) == m.diagrams,
            diags@.len() == m.diagrams.len(),
            diags@.len() < usize::MAX,
            numbers@.len() <= i,
            forall|v: int|
                #[trigger] number_set(numbers@).contains(v) <==> exists|j: int|
                    0 <= j < i && suffix_number(m.diagrams[j].name, base@) == Some(v),
        decreases diags@.len() - i,
    {
        let ghost before = numbers@;
        assert(diags@[i as int]@ == m.diagrams[i as int]);
        match suffix_of(diags[i].name.as_str(), base) {
            Some(v) => {
                numbers.push(v);
                assert forall|w: int| #[trigger] number_set(numbers@).contains(w) <==> exists|j: int|
                    0 <= j < i + 1 && suffix_number(m.diagrams[j].name, base@) == Some(w) by {
                    if number_set(numbers@).contains(w) {
                        let k = choose|k: int| 0 <= k < numbers@.len() && numbers@[k] == w;
                        if k < before.len() {
                            assert(numbers@[k] == before[k]);
                            assert(number_set(before).contains(w));
                        }
                    }
                    if exists|j: int| 0 <= j < i + 1 && suffix_number(m.diagrams[j].name, base@) == Some(w) {
                        let j = choose|j: int| 0 <= j < i + 1 && suffix_number(m.diagrams[j].name, base@) == Some(w);
                        if j < i {
                            assert(number_set(before).contains(w));
                            let k = choose|k: int| 0 <= k < before.len() && before[k] == w;
                            assert(numbers@[k] == before[k]);
                        } else {
                            assert(numbers@[before.len() as int] == v);
                        }
                    }
                }
            },
            None => {},
        }
        i += 1;
    }
    let n = first_free_number(numbers);
    proof {
        let taken = taken_numbers(diagram_names(m), base@);
        assert forall|v: int| number_set(numbers@).contains(v) <==> taken.contains(v) by {
            if number_set(numbers@).contains(v) {
                let j = choose|j: int| 0 <= j < diags@.len() && suffix_number(m.diagrams[j].name, base@) == Some(v);
                assert(diagram_names(m).contains(m.diagrams[j].name));
            }
        }
        assert(number_set(numbers@) =~= taken);
        lemma_first_free_unique(taken, n as int);
        lemma_numbered_name_carries(base@, n as nat);
    }
    numbered(base, n)
}

/// The texts of a list of names, as a set.
pub open spec fn name_set(names: Seq<String>) -> Set<Seq<char>> {
    Set::new(|s: Seq<char>| exists|i: int| 0 <= i < names.len() && names[i]@ == s)
}

/// A name for a new feature of a draft: `<base>_<n>` with the smallest
/// positive `n` that none of the given names `<base>_<number>` carries.
pub fn generate_unique_name_in_draft(base: &str, names: &Vec<String>) -> (r: String)
    requires
        names@.len() < usize::MAX,
    ensures
        r@ == unique_name(name_set(names@), base@),
        !name_set(names@).contains(r@),
{
    let ghost ns = names@;
    let mut numbers: Vec<u64> = Vec::new();
    let mut i: usize = 0;
    while i < names.len()
        invariant
            i <= ns.len(),
            ns == names@,
            ns.len() < usize::MAX,
            numbers@.len() <= i,
            forall|v: int|
                #[trigger] number_set(numbers@).contains(v) <==> exists|j: int|
                    0 <= j < i && suffix_number(ns[j]@, base@) == Some(v),
        decreases ns.len() - i,
    {
        let ghost before = numbers@;
        match suffix_of(names[i].as_str(), base) {
            Some(v) => {
                numbers.push(v);
                assert forall|w: int| #[trigger] number_set(numbers@).contains(w) <==> exists|j: int|
                    0 <= j < i + 1 && suffix_number(ns[j]@, base@) == Some(w) by {
                    if number_set(numbers@).contains(w) {
                        let k = choose|k: int| 0 <= k < numbers@.len() && numbers@[k] == w;
                        if k < before.len() {
                            assert(numbers@[k] == before[k]);
                            assert(number_set(before).contains(w));
                        }
                    }
                    if exists|j: int| 0 <= j < i + 1 && suffix_number(ns[j]@, base@) == Some(w) {
                        let j = choose|j: int| 0 <= j < i + 1 && suffix_number(ns[j]@, base@) == Some(w);
                        if j < i {
                            assert(number_set(before).contains(w));
                            let k = choose|k: int| 0 <= k < before.len() && before[k] == w;
                            assert(numbers@[k] == before[k]);
                        } else {
                            assert(numbers@[before.len() as int] == v);
                        }
                    }
                }
            },
            None => {},
        }
        i += 1;
    }
    let n = first_free_number(numbers);
    proof {
        let taken = taken_numbers(name_set(ns), base@);
        assert forall|v: int| number_set(numbers@).contains(v) <==> taken.contains(v) by {
            if number_set(numbers@).contains(v) {
                let j = choose|j: int| 0 <= j < ns.len() && suffix_number(ns[j]@, base@) == Some(v);
                assert(name_set(ns).contains(ns[j]@));
            }
        }
        assert(number_set(numbers@) =~= taken);
        lemma_first_free_unique(taken, n as int);
        lemma_numbered_name_carries(base@, n as nat);
    }
    numbered(base, n)
}

// ─── Laws of default names ───────────────────────────────────────────

/// Decimal text is all digits, starts with a digit, and has the number's
/// value.
proof fn lemma_decimal_digits(n: nat)
    ensures
        decimal(n).len() > 0,
        all_digits(decimal(n)),
        digits_value(decimal(n)) == n,
    decreases n,
{
    assert(forall|d: int| 0 <= d < 10 ==> #[trigger] digit_value(digit_char(d)) == d);
    assert(forall|d: int| 0 <= d < 10 ==> is_digit(#[trigger] digit_char(d)));
    if n < 10 {
        let s = decimal(n);
        assert(s.drop_last() =~= Seq::<char>::empty());
        assert(digits_value(s.drop_last()) == 0);
        assert(digits_value(s) == digits_value(s.drop_last()) * 10 + digit_value(s.last()));
    } else {
        lemma_decimal_digits(n / 10);
        let s = decimal(n);
        assert(s.drop_last() =~= decimal(n / 10));
        assert(s.last() == digit_char((n % 10) as int));
        assert((n / 10) * 10 + n % 10 == n) by (nonlinear_arith);
        assert(digits_value(s) == digits_value(s.drop_last()) * 10 + digit_value(s.last()));
        assert forall|i: int| 0 <= i < s.len() implies is_digit(#[trigger] s[i]) by {
            if i < s.len() - 1 {
                assert(s[i] == decimal(n / 10)[i]);
            }
        }
    }
}

/// Parsing the decimal text of a 64-bit number gives the number back.
pub proof fn lemma_parse_decimal(n: nat)
    requires
        n <= u64::MAX,
    ensures
        parsed_u64(decimal(n)) == Some(n as int),
{
    lemma_decimal_digits(n);
    assert(is_digit(decimal(n)[0]));
    assert(unsigned_digits(decimal(n)) == decimal(n));
}

/// The name `<base>_<n>` carries the number `n`.
pub proof fn lemma_numbered_name_carries(base: Seq<char>, n: nat)
    requires
        n <= u64::MAX,
    ensures
        suffix_number(numbered_name(base, n as int), base) == Some(n as int),
{
    reveal_strlit("_");
    let name = numbered_name(base, n as int);
    let prefix = base + "_"@;
    assert(name.take(prefix.len() as int) =~= prefix);
    assert(name.skip(prefix.len() as int) =~= decimal(n));
    lemma_parse_decimal(n);
}

} // verus!
