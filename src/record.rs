//! The text formats of the status records: an invocation is stored as its
//! tokens joined by single spaces, and an exit status as decimal text.
use vstd::prelude::*;
use vstd::string::StringExecFns;

verus! {

/// The character views of a sequence of strings.
pub open spec fn strings_view(v: Seq<String>) -> Seq<Seq<char>> {
    v.map_values(|s: String| s@)
}

/// Tokens joined by single spaces.
pub open spec fn join_spaces(xs: Seq<Seq<char>>) -> Seq<char>
    decreases xs.len(),
{
    if xs.len() == 0 {
        seq![]
    } else if xs.len() == 1 {
        xs[0]
    } else {
        join_spaces(xs.drop_last()) + seq![' '] + xs.last()
    }
}

/// The pieces of `s` between its spaces, empty pieces included.
pub open spec fn split_spaces(s: Seq<char>) -> Seq<Seq<char>>
    decreases s.len(),
{
    if s.len() == 0 {
        seq![seq![]]
    } else {
        let rest = split_spaces(s.drop_last());
        if s.last() == ' ' {
            rest.push(seq![])
        } else {
            rest.update(rest.len() - 1, rest.last().push(s.last()))
        }
    }
}

/// No token holds a space.
pub open spec fn no_spaces(xs: Seq<Seq<char>>) -> bool {
    forall|i: int| 0 <= i < xs.len() ==> !(#[trigger] xs[i]).contains(' ')
}

pub open spec fn extend_last(ss: Seq<Seq<char>>, a: Seq<char>) -> Seq<Seq<char>> {
    ss.update(ss.len() - 1, ss.last() + a)
}

proof fn lemma_split_nonempty(s: Seq<char>)
    ensures
        split_spaces(s).len() >= 1,
    decreases s.len(),
{
    if s.len() > 0 {
        lemma_split_nonempty(s.drop_last());
    }
}

proof fn lemma_split_append(p: Seq<char>, a: Seq<char>)
    requires
        !a.contains(' '),
    ensures
        split_spaces(p + a) == extend_last(split_spaces(p), a),
    decreases a.len(),
{
    lemma_split_nonempty(p);
    if a.len() == 0 {
        assert(p + a =~= p);
        let ss = split_spaces(p);
        assert(ss.last() + a =~= ss.last());
        assert(extend_last(ss, a) =~= ss);
    } else {
        let a0 = a.drop_last();
        assert(!a0.contains(' ')) by {
            if a0.contains(' ') {
                let k = choose|k: int| 0 <= k < a0.len() && a0[k] == ' ';
                assert(a[k] == ' ');
            }
        }
        assert(a.last() != ' ') by {
            assert(a[a.len() - 1] == a.last());
        }
        lemma_split_append(p, a0);
        assert((p + a).drop_last() =~= p + a0);
        assert((p + a).last() == a.last());
        lemma_split_nonempty(p + a0);
        let ss = split_spaces(p);
        let rest = split_spaces(p + a0);
        assert(rest == extend_last(ss, a0));
        assert(rest.len() == ss.len());
        assert(rest.last() == ss.last() + a0);
        assert((ss.last() + a0).push(a.last()) =~= ss.last() + a);
        assert(split_spaces(p + a) == rest.update(rest.len() - 1, rest.last().push(a.last())));
        assert(split_spaces(p + a) =~= extend_last(ss, a));
    }
}

/// Splitting a joined invocation gives its tokens back, when none holds a space.
pub proof fn lemma_invocation_round_trip(xs: Seq<Seq<char>>)
    requires
        xs.len() >= 1,
        no_spaces(xs),
    ensures
        split_spaces(join_spaces(xs)) == xs,
    decreases xs.len(),
{
    if xs.len() == 1 {
        assert(!xs[0].contains(' '));
        lemma_split_append(seq![], xs[0]);
        assert(seq![] + xs[0] =~= xs[0]);
        assert(extend_last(split_spaces(seq![]), xs[0]) =~= xs);
    } else {
        let init = xs.drop_last();
        assert(no_spaces(init)) by {
            assert forall|i: int| 0 <= i < init.len() implies !(#[trigger] init[i]).contains(' ') by {
                assert(init[i] == xs[i]);
            }
        }
        lemma_invocation_round_trip(init);
        let p = join_spaces(init) + seq![' '];
        assert(p.drop_last() =~= join_spaces(init));
        assert(split_spaces(p) == init.push(seq![]));
        assert(!xs.last().contains(' ')) by {
            assert(xs[xs.len() - 1] == xs.last());
        }
        lemma_split_append(p, xs.last());
        assert(seq![] + xs.last() =~= xs.last());
        assert(extend_last(init.push(seq![]), xs.last()) =~= xs);
    }
}

/// Joins the tokens of an invocation with single spaces.
pub fn invocation_record(command: &Vec<String>) -> (r: String)
    ensures
        r@ == join_spaces(strings_view(command@)),
{
    let mut r = String::new();
    let mut i: usize = 0;
    while i < command.len()
        invariant
            i <= command.len(),
            r@ == join_spaces(strings_view(command@).take(i as int)),
        decreases command.len() - i,
    {
        let ghost before = strings_view(command@).take(i as int);
        let ghost after = strings_view(command@).take(i as int + 1);
        assert(after.drop_last() =~= before);
        if i > 0 {
            r.append(" ");
        }
        r.append(command[i].as_str());
        proof {
            reveal_strlit(" ");
        }
        i += 1;
    }
    assert(strings_view(command@).take(command@.len() as int) =~= strings_view(command@));
    r
}

/// Relies on `str::split` with a `char` pattern: the pieces of the text
/// between occurrences of the separator, in order, empty pieces included.
#[verifier::external_body]
fn split_on_spaces(text: &str) -> (r: Vec<String>)
    ensures
        strings_view(r@) == split_spaces(text@),
{
    text.split(' ').map(|t| t.to_string()).collect()
}

/// The tokens of an invocation record.
pub fn invocation_tokens(record: &str) -> (r: Vec<String>)
    ensures
        strings_view(r@) == split_spaces(record@),
{
    split_on_spaces(record)
}

/// An ASCII decimal digit.
pub open spec fn is_digit(c: char) -> bool {
    c == '0' || c == '1' || c == '2' || c == '3' || c == '4' || c == '5' || c == '6' || c == '7'
        || c == '8' || c == '9'
}

/// The value of an ASCII decimal digit.
pub open spec fn digit_value(c: char) -> int {
    if c == '1' {
        1
    } else if c == '2' {
        2
    } else if c == '3' {
        3
    } else if c == '4' {
        4
    } else if c == '5' {
        5
    } else if c == '6' {
        6
    } else if c == '7' {
        7
    } else if c == '8' {
        8
    } else if c == '9' {
        9
    } else {
        0
    }
}

/// The digit that stands for `d`, for `0 <= d < 10`.
pub open spec fn digit_char(d: int) -> char {
    if d == 1 {
        '1'
    } else if d == 2 {
        '2'
    } else if d == 3 {
        '3'
    } else if d == 4 {
        '4'
    } else if d == 5 {
        '5'
    } else if d == 6 {
        '6'
    } else if d == 7 {
        '7'
    } else if d == 8 {
        '8'
    } else if d == 9 {
        '9'
    } else {
        '0'
    }
}

pub open spec fn all_digits(s: Seq<char>) -> bool {
    forall|i: int| 0 <= i < s.len() ==> is_digit(#[trigger] s[i])
}

/// The value of a run of decimal digits, most significant first.
pub open spec fn digits_value(s: Seq<char>) -> int
    decreases s.len(),
{
    if s.len() == 0 {
        0
    } else {
        10 * digits_value(s.drop_last()) + digit_value(s.last())
    }
}

/// The integer that decimal text denotes: an optional `+` or `-`, then one or
/// more digits.
pub open spec fn parse_int(s: Seq<char>) -> Option<int> {
    if s.len() > 1 && (s[0] == '-' || s[0] == '+') && all_digits(s.skip(1)) {
        if s[0] == '-' {
            Some(-digits_value(s.skip(1)))
        } else {
            Some(digits_value(s.skip(1)))
        }
    } else if s.len() > 0 && all_digits(s) {
        Some(digits_value(s))
    } else {
        None
    }
}

/// The `i32` that the text denotes, if it denotes one in range.
pub open spec fn parse_i32(s: Seq<char>) -> Option<i32> {
    match parse_int(s) {
        Some(v) => if i32::MIN <= v <= i32::MAX {
            Some(v as i32)
        } else {
            None
        },
        None => None,
    }
}

/// The shortest decimal text of a natural number.
pub open spec fn decimal(n: nat) -> Seq<char>
    decreases n,
{
    if n < 10 {
        seq![digit_char(n as int)]
    } else {
        decimal(n / 10).push(digit_char((n % 10) as int))
    }
}

/// The decimal text of an integer, with a `-` before a negative one.
pub open spec fn signed_decimal(v: int) -> Seq<char> {
    if v < 0 {
        seq!['-'] + decimal((-v) as nat)
    } else {
        decimal(v as nat)
    }
}

proof fn lemma_digit(d: int)
    requires
        0 <= d < 10,
    ensures
        is_digit(digit_char(d)),
        digit_value(digit_char(d)) == d,
{
}

proof fn lemma_decimal(n: nat)
    ensures
        decimal(n).len() >= 1,
        all_digits(decimal(n)),
        digits_value(decimal(n)) == n,
    decreases n,
{
    if n < 10 {
        lemma_digit(n as int);
        let d = decimal(n);
        assert(d.drop_last() =~= Seq::<char>::empty());
        assert(digits_value(d.drop_last()) == 0);
        assert(d.last() == digit_char(n as int));
    } else {
        lemma_digit((n % 10) as int);
        lemma_decimal(n / 10);
        let d = decimal(n);
        assert(d.drop_last() =~= decimal(n / 10));
        assert(d.last() == digit_char((n % 10) as int));
        assert(digits_value(d) == 10 * (n / 10) + n % 10);
        assert(all_digits(d)) by {
            assert forall|i: int| 0 <= i < d.len() implies is_digit(#[trigger] d[i]) by {
                if i < d.len() - 1 {
                    assert(d[i] == decimal(n / 10)[i]);
                }
            }
        }
    }
}

/// Decimal text of any `i32` parses back to that value.
pub proof fn lemma_exit_code_text_round_trip(v: i32)
    ensures
        parse_i32(signed_decimal(v as int)) == Some(v),
{
    let s = signed_decimal(v as int);
    if v < 0 {
        let m = (-(v as int)) as nat;
        lemma_decimal(m);
        assert(s.skip(1) =~= decimal(m));
        assert(s[0] == '-');
    } else {
        lemma_decimal(v as nat);
        let d = decimal(v as nat);
        assert(is_digit(d[0]));
        if d.len() > 1 {
            assert(d[0] != '-' && d[0] != '+');
        }
    }
}

/// Relies on `str::parse::<i32>` (`i32::from_str`): an optional `+` or `-`
/// followed by one or more ASCII decimal digits whose value fits in `i32`
/// parses to that value; any other text is an error.
#[verifier::external_body]
fn parse_exit_code(text: &str) -> (r: Option<i32>)
    ensures
        r == parse_i32(text@),
{
    text.parse::<i32>().ok()
}

/// The exit status that an exit-code record holds, if its text is an `i32`.
pub fn exit_code_value(text: &str) -> (r: Option<i32>)
    ensures
        r == parse_i32(text@),
{
    parse_exit_code(text)
}

} // verus!
