use vstd::prelude::*;
use vstd::string::*;

verus! {

/// Something that happened on a web page.
#[derive(Debug)]
pub enum WebEvent {
    PageLoad,
    PageUnload,
    KeyPress(char),
    Paste(String),
    Click { x: i64, y: i64 },
}

/// The character that writes the decimal digit `d`.
pub open spec fn digit_char(d: nat) -> char {
    (('0' as int) + d) as char
}

/// The decimal digits of `n`, most significant first, without leading zeros.
pub open spec fn digits(n: nat) -> Seq<char>
    decreases n,
{
    if n < 10 {
        seq![digit_char(n)]
    } else {
        digits(n / 10).push(digit_char(n % 10))
    }
}

/// The decimal text of `n`: its digits, after a minus sign when `n` is negative.
pub open spec fn int_text(n: int) -> Seq<char> {
    if n < 0 {
        seq!['-'] + digits((-n) as nat)
    } else {
        digits(n as nat)
    }
}

impl WebEvent {
    /// The line that describes the event.
    pub open spec fn description(self) -> Seq<char> {
        match self {
            WebEvent::PageLoad => "page loaded"@,
            WebEvent::PageUnload => "page unloaded"@,
            WebEvent::KeyPress(c) => "pressed '"@ + seq![c] + "'."@,
            WebEvent::Paste(s) => "pasted \""@ + s@ + "\"."@,
            WebEvent::Click { x, y } => "clicked at x="@ + int_text(x as int) + ", y="@ + int_text(
                y as int,
            ) + "."@,
        }
    }

    /// Returns the line that describes the event.
    pub fn describe(&self) -> (r: String)
        ensures
            r@ == self.description(),
    {
        match self {
            WebEvent::PageLoad => String::from_str("page loaded"),
            WebEvent::PageUnload => String::from_str("page unloaded"),
            WebEvent::KeyPress(c) => {
                let mut r = String::from_str("pressed '");
                push_char(&mut r, *c);
                r.append("'.");
                r
            },
            WebEvent::Paste(s) => {
                let mut r = String::from_str("pasted \"");
                r.append(s.as_str());
                r.append("\".");
                r
            },
            WebEvent::Click { x, y } => {
                let mut r = String::from_str("clicked at x=");
                push_int(&mut r, *x);
                r.append(", y=");
                push_int(&mut r, *y);
                r.append(".");
                r
            },
        }
    }
}

/// Relies on String::push: the character is appended at the end.
#[verifier::external_body]
fn push_char(s: &mut String, c: char)
    ensures
        final(s)@ == old(s)@.push(c),
{
    s.push(c)
}

/// Appends the decimal digits of `n`.
fn push_digits(s: &mut String, n: u64)
    ensures
        final(s)@ == old(s)@ + digits(n as nat),
    decreases n,
{
    let ghost start = s@;
    if n >= 10 {
        push_digits(s, n / 10);
    }
    let d: u8 = (n % 10) as u8;
    let c = (48u8 + d) as char;
    assert(c == digit_char(d as nat));
    push_char(s, c);
    assert(s@ =~= start + digits(n as nat));
}

/// Appends the decimal text of `n`.
fn push_int(s: &mut String, n: i64)
    ensures
        final(s)@ == old(s)@ + int_text(n as int),
{
    let ghost start = s@;
    if n < 0 {
        push_char(s, '-');
        let m: u64 = (-(n as i128)) as u64;
        push_digits(s, m);
        assert(s@ =~= start + int_text(n as int));
    } else {
        push_digits(s, n as u64);
    }
}

} // verus!
