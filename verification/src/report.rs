//! The words of the table: what a philosopher reports on the console and
//! what it hands to the journal.
use vstd::prelude::*;
use vstd::string::StringExecFns;
use crate::protocol::Notice;

verus! {

/// The words of a notice.
pub open spec fn words(notice: Notice) -> Seq<char> {
    match notice {
        Notice::Thinking => "is thinking..."@,
        Notice::TryingBoth => "trying to get both forks..."@,
        Notice::GotLeft => "got left fork!"@,
        Notice::GotRight => "got right fork!"@,
        Notice::GotBoth => "got both forks!"@,
        Notice::ReturningLeft => "can't get right fork, returning left fork"@,
        Notice::ReturningRight => "can't get left fork, returning right fork"@,
        Notice::Eating => "is eating..."@,
        Notice::ReturningForks => "is returning forks..."@,
        Notice::GivingUp => "giving up on eating for now..."@,
    }
}

/// `n` blanks.
pub open spec fn blanks(n: nat) -> Seq<char> {
    Seq::new(n, |i: int| ' ')
}

/// A console line: the indentation, the name, a colon and a blank, then the
/// words.
pub open spec fn line_of(indent: nat, name: Seq<char>, words: Seq<char>) -> Seq<char> {
    blanks(indent) + name + ": "@ + words
}

/// The thought of a philosopher of the given name.
pub open spec fn thought_of(name: Seq<char>) -> Seq<char> {
    "Eureka! "@ + name + " has a new idea!"@
}

/// The decimal digit of a number below ten.
pub open spec fn digit_of(d: nat) -> char {
    if d == 0 {
        '0'
    } else if d == 1 {
        '1'
    } else if d == 2 {
        '2'
    } else if d == 3 {
        '3'
    } else if d == 4 {
        '4'
    } else if d == 5 {
        '5'
    } else if d == 6 {
        '6'
    } else if d == 7 {
        '7'
    } else if d == 8 {
        '8'
    } else {
        '9'
    }
}

/// A number written in decimal digits, without leading zeros.
pub open spec fn decimal_of(n: nat) -> Seq<char>
    decreases n,
{
    if n < 10 {
        seq![digit_of(n)]
    } else {
        decimal_of(n / 10).push(digit_of(n % 10))
    }
}

/// The closing line of an evening, which tells the number of forks.
pub open spec fn summary_of(forks: nat) -> Seq<char> {
    "Number of forks: "@ + decimal_of(forks)
}

/// The width of one column of the console, in characters.
pub const INDENT_STEP: usize = 30;

/// The indentation of the philosopher at `seat`: one column of thirty
/// characters for each seat before it, as far as the machine can count.
pub open spec fn indent_of(seat: usize) -> usize {
    if seat * 30 <= usize::MAX {
        (seat * 30) as usize
    } else {
        usize::MAX
    }
}

/// The words of a notice.
pub fn text(notice: Notice) -> (s: &'static str)
    ensures
        s@ == words(notice),
{
    match notice {
        Notice::Thinking => "is thinking...",
        Notice::TryingBoth => "trying to get both forks...",
        Notice::GotLeft => "got left fork!",
        Notice::GotRight => "got right fork!",
        Notice::GotBoth => "got both forks!",
        Notice::ReturningLeft => "can't get right fork, returning left fork",
        Notice::ReturningRight => "can't get left fork, returning right fork",
        Notice::Eating => "is eating...",
        Notice::ReturningForks => "is returning forks...",
        Notice::GivingUp => "giving up on eating for now...",
    }
}

/// The indentation of the philosopher at `seat`.
pub fn indent_for(seat: usize) -> (indent: usize)
    ensures
        indent == indent_of(seat),
{
    match seat.checked_mul(INDENT_STEP) {
        Some(indent) => indent,
        None => usize::MAX,
    }
}

/// A console line of a philosopher.
pub fn console_line(indent: usize, name: &str, words: &str) -> (out: String)
    ensures
        out@ == line_of(indent as nat, name@, words@),
{
    let mut out = String::new();
    let mut i: usize = 0;
    while i < indent
        invariant
            i <= indent,
            out@ == blanks(i as nat),
        decreases indent - i,
    {
        proof {
            reveal_strlit(" ");
            assert(" "@ =~= seq![' ']);
        }
        out.append(" ");
        i = i + 1;
        assert(out@ =~= blanks(i as nat));
    }
    out.append(name);
    out.append(": ");
    out.append(words);
    out
}

/// The thought that a philosopher of the given name hands to the journal.
pub fn thought(name: &str) -> (out: String)
    ensures
        out@ == thought_of(name@),
{
    let mut out = String::from_str("Eureka! ");
    out.append(name);
    out.append(" has a new idea!");
    out
}

fn digit(d: usize) -> (s: &'static str)
    requires
        d < 10,
    ensures
        s@ == seq![digit_of(d as nat)],
{
    proof {
        reveal_strlit("0");
        reveal_strlit("1");
        reveal_strlit("2");
        reveal_strlit("3");
        reveal_strlit("4");
        reveal_strlit("5");
        reveal_strlit("6");
        reveal_strlit("7");
        reveal_strlit("8");
        reveal_strlit("9");
    }
    let s = if d == 0 {
        "0"
    } else if d == 1 {
        "1"
    } else if d == 2 {
        "2"
    } else if d == 3 {
        "3"
    } else if d == 4 {
        "4"
    } else if d == 5 {
        "5"
    } else if d == 6 {
        "6"
    } else if d == 7 {
        "7"
    } else if d == 8 {
        "8"
    } else {
        "9"
    };
    assert(s@ =~= seq![digit_of(d as nat)]);
    s
}

fn append_decimal(out: &mut String, n: usize)
    ensures
        final(out)@ == old(out)@ + decimal_of(n as nat),
    decreases n,
{
    if n >= 10 {
        append_decimal(out, n / 10);
    }
    out.append(digit(n % 10));
    assert(out@ =~= old(out)@ + decimal_of(n as nat));
}

/// The closing line of an evening, which tells the number of forks.
pub fn summary(forks: usize) -> (out: String)
    ensures
        out@ == summary_of(forks as nat),
{
    let mut out = String::from_str("Number of forks: ");
    append_decimal(&mut out, forks);
    out
}

} // verus!
