//! Versions of tools, as they print them.

use vstd::prelude::*;

verus! {

/// A character of a version: a digit or a dot.
pub open spec fn is_part(c: char) -> bool {
    '0' <= c <= '9' || c == '.'
}

fn is_version_char(c: char) -> (r: bool)
    ensures
        r == is_part(c),
{
    ('0' <= c && c <= '9') || c == '.'
}

/// Where the run of version characters that holds `from` ends.
pub open spec fn run_end(text: Seq<char>, from: nat) -> nat
    decreases text.len() - from,
{
    if from < text.len() && is_part(text[from as int]) {
        run_end(text, from + 1)
    } else {
        from
    }
}

/// The text without the dots at its start.
pub open spec fn trim_start(text: Seq<char>) -> Seq<char>
    decreases text.len(),
{
    if text.len() > 0 && text[0] == '.' {
        trim_start(text.drop_first())
    } else {
        text
    }
}

/// The text without the dots at its end.
pub open spec fn trim_end(text: Seq<char>) -> Seq<char>
    decreases text.len(),
{
    if text.len() > 0 && text.last() == '.' {
        trim_end(text.drop_last())
    } else {
        text
    }
}

/// The number that decimal digits make up.
pub open spec fn decimal(digits: Seq<char>) -> int
    decreases digits.len(),
{
    if digits.len() == 0 {
        0
    } else {
        decimal(digits.drop_last()) * 10 + (digits.last() as int - '0' as int)
    }
}

/// The digits are a number of 32 bits.
pub open spec fn is_number(digits: Seq<char>) -> bool {
    digits.len() > 0 && decimal(digits) <= u32::MAX
}

/// Where the first dot is, or the end.
pub open spec fn first_dot(text: Seq<char>) -> nat
    decreases text.len(),
{
    if text.len() == 0 || text[0] == '.' {
        0
    } else {
        1 + first_dot(text.drop_first())
    }
}

/// The numbers between the dots, if all of them are numbers of 32 bits.
pub open spec fn components(text: Seq<char>) -> Option<Seq<u32>>
    decreases text.len(),
{
    let dot = first_dot(text) as int;
    let head = text.take(dot);
    if !is_number(head) {
        None
    } else if dot >= text.len() {
        Some(seq![decimal(head) as u32])
    } else {
        match components(text.skip(dot + 1)) {
            Some(rest) => Some(seq![decimal(head) as u32] + rest),
            None => None,
        }
    }
}

/// The version that a run of digits and dots is: at least two numbers, with dots between them and
/// possibly around them.
pub open spec fn version_of(run: Seq<char>) -> Option<Seq<u32>> {
    let inner = trim_end(trim_start(run));
    if inner.contains('.') {
        components(inner)
    } else {
        None
    }
}

/// The first version in the text from `from` on.
pub open spec fn version_from(text: Seq<char>, from: nat) -> Option<Seq<u32>>
    decreases text.len() - from,
{
    if from >= text.len() {
        None
    } else if !is_part(text[from as int]) {
        version_from(text, from + 1)
    } else {
        proof {
            run_end_grows(text, from);
        }
        let end = run_end(text, from);
        match version_of(text.subrange(from as int, end as int)) {
            Some(version) => Some(version),
            None => version_from(text, end),
        }
    }
}

/// A run ends within the text, behind every version character that it starts with.
pub proof fn run_end_grows(text: Seq<char>, from: nat)
    requires
        from <= text.len(),
    ensures
        from <= run_end(text, from) <= text.len(),
        from < text.len() && is_part(text[from as int]) ==> from < run_end(text, from),
        forall|i: int| from <= i < run_end(text, from) ==> is_part(#[trigger] text[i]),
    decreases text.len() - from,
{
    if from < text.len() && is_part(text[from as int]) {
        run_end_grows(text, from + 1);
    }
}

proof fn first_dot_at_most(text: Seq<char>)
    ensures
        first_dot(text) <= text.len(),
        forall|i: int| 0 <= i < first_dot(text) ==> (#[trigger] text[i]) != '.',
        first_dot(text) < text.len() ==> text[first_dot(text) as int] == '.',
    decreases text.len(),
{
    if text.len() > 0 && text[0] != '.' {
        let rest = text.drop_first();
        first_dot_at_most(rest);
        assert forall|i: int| 0 <= i < first_dot(text) implies (#[trigger] text[i]) != '.' by {
            if i > 0 {
                assert(rest[i - 1] == text[i]);
            }
        }
    }
}

proof fn decimal_grows(digits: Seq<char>, count: nat)
    requires
        count <= digits.len(),
        forall|i: int| 0 <= i < digits.len() ==> '0' <= (#[trigger] digits[i]) <= '9',
    ensures
        0 <= decimal(digits.take(count as int)) <= decimal(digits),
    decreases digits.len(),
{
    if count == digits.len() {
        assert(digits.take(count as int) =~= digits);
        if digits.len() > 0 {
            assert(digits.drop_last() =~= digits.take(digits.len() - 1));
            decimal_grows(digits.drop_last(), (count - 1) as nat);
            assert(digits.drop_last().take(count - 1) =~= digits.drop_last());
        }
    } else {
        let shorter = digits.drop_last();
        decimal_grows(shorter, count);
        assert(shorter.take(count as int) =~= digits.take(count as int));
    }
}

fn chars_of(text: &str) -> (r: Vec<char>)
    ensures
        r@ == text@,
{
    broadcast use vstd::string::axiom_spec_iter;

    let mut chars: Vec<char> = Vec::new();
    for c in iter: text.chars()
        invariant
            iter.seq() == text@,
            chars@ == text@.take(iter.index()),
    {
        chars.push(c);
        assert(chars@ =~= text@.take(iter.index() + 1));
    }
    assert(chars@ =~= text@);
    chars
}

/// The number that the digits from `start` up to `end` make up, if it has 32 bits.
fn parse_number(text: &Vec<char>, start: usize, end: usize) -> (r: Option<u32>)
    requires
        start <= end <= text@.len(),
        forall|i: int| start <= i < end ==> '0' <= (#[trigger] text@[i]) <= '9',
    ensures
        ({
            let digits = text@.subrange(start as int, end as int);
            match r {
                Some(number) => is_number(digits) && number == decimal(digits),
                None => !is_number(digits),
            }
        }),
{
    let ghost digits = text@.subrange(start as int, end as int);
    if start == end {
        return None;
    }
    let mut number: u64 = 0;
    let mut i: usize = start;
    assert(digits.take(0) =~= Seq::empty());
    while i < end
        invariant
            start <= i <= end <= text@.len(),
            digits == text@.subrange(start as int, end as int),
            forall|j: int| 0 <= j < digits.len() ==> '0' <= (#[trigger] digits[j]) <= '9',
            number == decimal(digits.take(i - start)),
            number <= u32::MAX,
        decreases end - i,
    {
        proof {
            let taken = digits.take(i - start + 1);
            assert(taken.drop_last() =~= digits.take(i - start));
            assert(taken.last() == digits[i - start]);
            assert(digits[i - start] == text@[i as int]);
            decimal_grows(digits, (i - start + 1) as nat);
        }
        let digit = text[i] as u64 - '0' as u64;
        number = number * 10 + digit;
        if number > u32::MAX as u64 {
            return None;
        }
        i += 1;
    }
    assert(digits.take(i - start) =~= digits);
    Some(number as u32)
}

/// The numbers between the dots from `start` up to `end`.
fn parse_components(text: &Vec<char>, start: usize, end: usize) -> (r: Option<Vec<u32>>)
    requires
        start <= end <= text@.len(),
        forall|i: int| start <= i < end ==> is_part(#[trigger] text@[i]),
    ensures
        match r {
            Some(version) => components(text@.subrange(start as int, end as int)) == Some(
                version@,
            ),
            None => components(text@.subrange(start as int, end as int)) is None,
        },
{
    let ghost goal = components(text@.subrange(start as int, end as int));
    let mut version: Vec<u32> = Vec::new();
    let mut from: usize = start;
    loop
        invariant
            start <= from <= end <= text@.len(),
            forall|i: int| start <= i < end ==> is_part(#[trigger] text@[i]),
            goal == (match components(text@.subrange(from as int, end as int)) {
                Some(rest) => Some(version@ + rest),
                None => None,
            }),
            goal == components(text@.subrange(start as int, end as int)),
        decreases end - from,
    {
        let ghost rest = text@.subrange(from as int, end as int);
        let mut dot: usize = from;
        while dot < end && text[dot] != '.'
            invariant
                from <= dot <= end <= text@.len(),
                forall|i: int| from <= i < dot ==> (#[trigger] text@[i]) != '.',
            decreases end - dot,
        {
            dot += 1;
        }
        proof {
            first_dot_at_most(rest);
            let k = first_dot(rest) as int;
            if k < dot - from {
                assert(rest[k] == text@[from + k]);
            } else if k > dot - from {
                assert(rest[dot - from] == text@[dot as int]);
            }
            assert(rest.take(k) =~= text@.subrange(from as int, dot as int));
            assert forall|i: int| from <= i < dot implies '0' <= (#[trigger] text@[i])
                <= '9' by {
                assert(is_part(text@[i]));
            }
        }
        match parse_number(text, from, dot) {
            None => {
                return None;
            },
            Some(number) => {
                let ghost before = version@;
                version.push(number);
                if dot == end {
                    assert(version@ =~= before + seq![number]);
                    return Some(version);
                }
                proof {
                    let tail = text@.subrange(dot + 1, end as int);
                    assert(rest.skip(dot - from + 1) =~= tail);
                    if components(tail) is Some {
                        assert(before + (seq![number] + components(tail)->0) =~= version@
                            + components(tail)->0);
                    }
                }
                from = dot + 1;
            },
        }
    }
}

/// The version that the run from `start` up to `end` is.
fn parse_run(text: &Vec<char>, start: usize, end: usize) -> (r: Option<Vec<u32>>)
    requires
        start <= end <= text@.len(),
        forall|i: int| start <= i < end ==> is_part(#[trigger] text@[i]),
    ensures
        match r {
            Some(version) => version_of(text@.subrange(start as int, end as int)) == Some(
                version@,
            ),
            None => version_of(text@.subrange(start as int, end as int)) is None,
        },
{
    let ghost run = text@.subrange(start as int, end as int);
    let mut first: usize = start;
    while first < end && text[first] == '.'
        invariant
            start <= first <= end <= text@.len(),
            trim_start(text@.subrange(first as int, end as int)) == trim_start(run),
        decreases end - first,
    {
        assert(text@.subrange(first as int, end as int).drop_first() =~= text@.subrange(
            first + 1,
            end as int,
        ));
        first += 1;
    }
    assert(trim_start(run) == text@.subrange(first as int, end as int));
    let mut last: usize = end;
    while last > first && text[last - 1] == '.'
        invariant
            first <= last <= end <= text@.len(),
            trim_end(text@.subrange(first as int, last as int)) == trim_end(
                text@.subrange(first as int, end as int),
            ),
        decreases last,
    {
        assert(text@.subrange(first as int, last as int).drop_last() =~= text@.subrange(
            first as int,
            last - 1,
        ));
        last -= 1;
    }
    let ghost inner = text@.subrange(first as int, last as int);
    assert(trim_end(trim_start(run)) == inner);
    let mut dotted = false;
    let mut i: usize = first;
    while i < last
        invariant
            first <= i <= last <= text@.len(),
            inner == text@.subrange(first as int, last as int),
            dotted <==> exists|j: int| first <= j < i && (#[trigger] text@[j]) == '.',
        decreases last - i,
    {
        if text[i] == '.' {
            dotted = true;
        }
        i += 1;
    }
    proof {
        if dotted {
            let j = choose|j: int| first <= j < last && (#[trigger] text@[j]) == '.';
            assert(inner[j - first] == '.');
        } else if inner.contains('.') {
            let j = choose|j: int| 0 <= j < inner.len() && inner[j] == '.';
            assert(text@[first + j] == '.');
        }
    }
    if !dotted {
        return None;
    }
    parse_components(text, first, last)
}

/// The first version in the text: at least two numbers with dots between them.
pub fn parse_version(text: &str) -> (r: Option<Vec<u32>>)
    ensures
        match r {
            Some(version) => version_from(text@, 0) == Some(version@),
            None => version_from(text@, 0) is None,
        },
{
    let chars = chars_of(text);
    let mut from: usize = 0;
    while from < chars.len()
        invariant
            from <= chars@.len(),
            chars@ == text@,
            version_from(text@, from as nat) == version_from(text@, 0),
        decreases chars@.len() - from,
    {
        if !is_version_char(chars[from]) {
            from += 1;
        } else {
            let mut end: usize = from;
            while end < chars.len() && is_version_char(chars[end])
                invariant
                    from <= end <= chars@.len(),
                    run_end(chars@, from as nat) == run_end(chars@, end as nat),
                decreases chars@.len() - end,
            {
                end += 1;
            }
            proof {
                run_end_grows(chars@, from as nat);
            }
            if let Some(version) = parse_run(&chars, from, end) {
                return Some(version);
            }
            from = end;
        }
    }
    None
}

/// `a` comes before `b`: by the first number that differs, or because it is a part of `b`.
pub open spec fn is_older(a: Seq<u32>, b: Seq<u32>) -> bool
    decreases a.len(),
{
    if b.len() == 0 {
        false
    } else if a.len() == 0 {
        true
    } else if a[0] != b[0] {
        a[0] < b[0]
    } else {
        is_older(a.drop_first(), b.drop_first())
    }
}

fn older(a: &Vec<u32>, b: &[u32]) -> (r: bool)
    ensures
        r == is_older(a@, b@),
{
    let mut i: usize = 0;
    assert(a@.skip(0) =~= a@);
    assert(b@.skip(0) =~= b@);
    while i < a.len() && i < b.len()
        invariant
            i <= a@.len(),
            i <= b@.len(),
            is_older(a@, b@) == is_older(a@.skip(i as int), b@.skip(i as int)),
        decreases a@.len() - i,
    {
        if a[i] != b[i] {
            return a[i] < b[i];
        }
        assert(a@.skip(i as int).drop_first() =~= a@.skip(i + 1));
        assert(b@.skip(i as int).drop_first() =~= b@.skip(i + 1));
        i += 1;
    }
    i < b.len()
}

/// What the output of a tool says about its version.
#[derive(Clone, Copy, Debug, PartialEq, Eq, Structural)]
pub enum ToolVersion {
    /// No version can be read from it.
    Unreadable,
    /// The tool failed, or is older than needed.
    Insufficient,
    /// The tool is new enough.
    Sufficient,
}

/// What the output of a tool says about its version. `success` says whether the tool succeeded.
pub fn check_tool_version(output: &str, success: bool, minimum: &[u32]) -> (r: ToolVersion)
    ensures
        r == (match version_from(output@, 0) {
            None => ToolVersion::Unreadable,
            Some(version) => if !success || is_older(version, minimum@) {
                ToolVersion::Insufficient
            } else {
                ToolVersion::Sufficient
            },
        }),
{
    match parse_version(output) {
        None => ToolVersion::Unreadable,
        Some(version) => if !success || older(&version, minimum) {
            ToolVersion::Insufficient
        } else {
            ToolVersion::Sufficient
        },
    }
}

/// Versions are in order: of two versions that differ, exactly one is older.
pub proof fn versions_are_ordered(a: Seq<u32>, b: Seq<u32>)
    ensures
        !is_older(a, a),
        a != b ==> (is_older(a, b) <==> !is_older(b, a)),
    decreases a.len(),
{
    if a.len() > 0 {
        versions_are_ordered(a.drop_first(), a.drop_first());
    }
    if a.len() > 0 && b.len() > 0 && a[0] == b[0] {
        versions_are_ordered(a.drop_first(), b.drop_first());
        if a.drop_first() == b.drop_first() {
            assert(a =~= seq![a[0]] + a.drop_first());
            assert(b =~= seq![b[0]] + b.drop_first());
        }
    } else if a.len() == 0 && b.len() == 0 {
        assert(a =~= b);
    }
}

/// A version that is older than an older one is older.
pub proof fn older_is_transitive(a: Seq<u32>, b: Seq<u32>, c: Seq<u32>)
    requires
        is_older(a, b),
        is_older(b, c),
    ensures
        is_older(a, c),
    decreases a.len(),
{
    if a.len() > 0 && a[0] == b[0] && b[0] == c[0] {
        older_is_transitive(a.drop_first(), b.drop_first(), c.drop_first());
    }
}

/// A version is made of decimal digits and dots.
pub proof fn versions_are_made_of_digits(c: char)
    ensures
        is_part(c) <==> c == '.' || c == '0' || c == '1' || c == '2' || c == '3' || c == '4' || c
            == '5' || c == '6' || c == '7' || c == '8' || c == '9',
{
}

/// One more digit makes a number ten times as large, and adds its own value.
pub proof fn digits_have_their_places(digits: Seq<char>, digit: char)
    ensures
        decimal(digits.push(digit)) == 10 * decimal(digits) + (digit as int - '0' as int),
        decimal(Seq::empty()) == 0,
{
    assert(digits.push(digit).drop_last() =~= digits);
}

/// A version has at least two numbers.
pub proof fn versions_have_two_numbers(run: Seq<char>)
    ensures
        version_of(run) matches Some(version) ==> version.len() >= 2,
{
    let inner = trim_end(trim_start(run));
    if inner.contains('.') && components(inner) is Some {
        first_dot_at_most(inner);
        let dot = first_dot(inner) as int;
        let i = choose|i: int| 0 <= i < inner.len() && inner[i] == '.';
        assert(dot <= i);
        components_are_some(inner.skip(dot + 1));
    }
}

proof fn components_are_some(text: Seq<char>)
    ensures
        components(text) matches Some(numbers) ==> numbers.len() >= 1,
{
}

/// Of two versions the older is told by the first number that differs; a version is older than any
/// that continues it.
pub proof fn first_difference_tells(a: Seq<u32>, b: Seq<u32>, place: int)
    requires
        0 <= place <= a.len(),
        place < b.len(),
        forall|i: int| 0 <= i < place ==> #[trigger] a[i] == b[i],
    ensures
        place == a.len() ==> is_older(a, b),
        place < a.len() && a[place] < b[place] ==> is_older(a, b),
        place < a.len() && a[place] > b[place] ==> !is_older(a, b),
    decreases place,
{
    if place > 0 {
        assert(a[0] == b[0]);
        let (x, y) = (a.drop_first(), b.drop_first());
        assert forall|i: int| 0 <= i < place - 1 implies #[trigger] x[i] == y[i] by {
            assert(a[i + 1] == b[i + 1]);
        }
        first_difference_tells(x, y, place - 1);
    }
}

proof fn trimming_with_a_last_dot(run: Seq<char>)
    ensures
        trim_end(trim_start(run.push('.'))) == trim_end(trim_start(run)),
    decreases run.len(),
{
    let longer = run.push('.');
    if run.len() == 0 {
        assert(longer.drop_first() =~= run);
    } else if run[0] == '.' {
        assert(longer.drop_first() =~= run.drop_first().push('.'));
        trimming_with_a_last_dot(run.drop_first());
    } else {
        assert(longer.drop_last() =~= run);
    }
}

/// Dots around a version are no part of it: with one more before it or behind it, it stays the same.
pub proof fn dots_around_versions_do_not_count(run: Seq<char>)
    ensures
        version_of(seq!['.'] + run) == version_of(run),
        version_of(run.push('.')) == version_of(run),
{
    assert((seq!['.'] + run).drop_first() =~= run);
    trimming_with_a_last_dot(run);
}

} // verus!
