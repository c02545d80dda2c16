//! The text side of the command protocol: splitting a command line on
//! single spaces, joining port names, parsing a baud rate, and building
//! the response strings.

use vstd::prelude::*;
use vstd::string::*;

verus! {

/// The character views of a list of owned strings.
pub open spec fn views_of(tokens: Seq<String>) -> Seq<Seq<char>> {
    tokens.map_values(|t: String| t@)
}

/// Splitting on a single space, as the dispatcher tokenizes a text frame:
/// every maximal run between spaces is a token, so consecutive spaces
/// produce empty tokens and the result is never empty.
pub open spec fn split_on_space(s: Seq<char>) -> Seq<Seq<char>>
    decreases s.len(),
{
    if s.len() == 0 {
        seq![Seq::<char>::empty()]
    } else {
        let init = split_on_space(s.drop_last());
        if s.last() == ' ' {
            init.push(Seq::<char>::empty())
        } else {
            init.update(init.len() - 1, init.last().push(s.last()))
        }
    }
}

pub proof fn lemma_split_nonempty(s: Seq<char>)
    ensures
        split_on_space(s).len() >= 1,
    decreases s.len(),
{
    if s.len() > 0 {
        lemma_split_nonempty(s.drop_last());
    }
}

/// A line without any space is a single token.
pub proof fn lemma_split_no_space(s: Seq<char>)
    requires
        forall|i: int| 0 <= i < s.len() ==> s[i] != ' ',
    ensures
        split_on_space(s) == seq![s],
    decreases s.len(),
{
    if s.len() == 0 {
        assert(s =~= Seq::<char>::empty());
        assert(seq![Seq::<char>::empty()] =~= seq![s]);
    } else {
        lemma_split_no_space(s.drop_last());
        lemma_split_nonempty(s.drop_last());
        assert(split_on_space(s) == seq![s.drop_last().push(s.last())]);
        assert(s.drop_last().push(s.last()) =~= s);
        assert(seq![s.drop_last().push(s.last())] =~= seq![s]);
    }
}

/// Splits `text` on single spaces, exactly as `split_on_space` describes.
pub fn split_spaces(text: &str) -> (tokens: Vec<String>)
    ensures
        views_of(tokens@) == split_on_space(text@),
        tokens@.len() >= 1,
{
    let len = text.unicode_len();
    let mut tokens: Vec<String> = Vec::new();
    let mut start: usize = 0;
    let mut i: usize = 0;
    proof {
        assert(text@.subrange(0, 0) =~= Seq::<char>::empty());
        assert(views_of(tokens@).push(text@.subrange(0, 0)) =~= seq![Seq::<char>::empty()]);
    }
    while i < len
        invariant
            start <= i <= len,
            len == text@.len(),
            split_on_space(text@.subrange(0, i as int)) == views_of(tokens@).push(
                text@.subrange(start as int, i as int),
            ),
        decreases len - i,
    {
        let ghost pre = text@.subrange(0, i as int);
        let ghost cur = text@.subrange(start as int, i as int);
        let ghost toks_before = tokens@;
        let c = text.get_char(i);
        if c == ' ' {
            let tok = String::from_str(text.substring_char(start, i));
            tokens.push(tok);
            start = i + 1;
        }
        i = i + 1;
        proof {
            let post = text@.subrange(0, i as int);
            assert(post.drop_last() =~= pre);
            assert(post.last() == c);
            if c == ' ' {
                assert(views_of(tokens@) =~= views_of(toks_before).push(cur));
                assert(text@.subrange(start as int, i as int) =~= Seq::<char>::empty());
                assert(split_on_space(post) =~= views_of(tokens@).push(
                    text@.subrange(start as int, i as int),
                ));
            } else {
                let init = split_on_space(pre);
                lemma_split_nonempty(pre);
                assert(init.last() == cur);
                assert(cur.push(c) =~= text@.subrange(start as int, i as int));
                assert(split_on_space(post) =~= views_of(tokens@).push(
                    text@.subrange(start as int, i as int),
                ));
            }
        }
    }
    let ghost toks_before = tokens@;
    let ghost cur = text@.subrange(start as int, len as int);
    let tok = String::from_str(text.substring_char(start, len));
    tokens.push(tok);
    proof {
        assert(text@.subrange(0, len as int) =~= text@);
        assert(views_of(tokens@) =~= views_of(toks_before).push(cur));
    }
    tokens
}

/// Compares two string slices character by character.
pub fn str_eq(a: &str, b: &str) -> (r: bool)
    ensures
        r == (a@ == b@),
{
    let alen = a.unicode_len();
    let blen = b.unicode_len();
    if alen != blen {
        return false;
    }
    let mut i: usize = 0;
    while i < alen
        invariant
            i <= alen,
            alen == a@.len(),
            alen == b@.len(),
            forall|j: int| 0 <= j < i ==> a@[j] == b@[j],
        decreases alen - i,
    {
        if a.get_char(i) != b.get_char(i) {
            return false;
        }
        i = i + 1;
    }
    proof {
        assert(a@ =~= b@);
    }
    true
}

/// Port names joined by single spaces, as the listing response shows them.
pub open spec fn join_spaces(items: Seq<Seq<char>>) -> Seq<char>
    decreases items.len(),
{
    if items.len() == 0 {
        Seq::<char>::empty()
    } else if items.len() == 1 {
        items[0]
    } else {
        join_spaces(items.drop_last()) + seq![' '] + items.last()
    }
}

/// The listing response: `LIST: ` followed by the space-joined port names.
pub fn list_response(ports: &Vec<String>) -> (resp: String)
    ensures
        resp@ == "LIST: "@ + join_spaces(views_of(ports@)),
{
    let mut resp = String::from_str("LIST: ");
    let ghost prefix = "LIST: "@;
    let n = ports.len();
    if n > 0 {
        resp.append(ports[0].as_str());
        proof {
            assert(views_of(ports@).subrange(0, 1) =~= seq![ports@[0]@]);
            assert(join_spaces(seq![ports@[0]@]) == ports@[0]@);
        }
        let mut i: usize = 1;
        while i < n
            invariant
                1 <= i <= n,
                n == ports@.len(),
                resp@ == prefix + join_spaces(views_of(ports@).subrange(0, i as int)),
            decreases n - i,
        {
            let ghost sofar = views_of(ports@).subrange(0, i as int);
            resp.append(" ");
            resp.append(ports[i].as_str());
            i = i + 1;
            proof {
                reveal_strlit(" ");
                assert(" "@ =~= seq![' ']);
                let now = views_of(ports@).subrange(0, i as int);
                assert(now.drop_last() =~= sofar);
                assert(now.last() == ports@[i - 1]@);
                assert(join_spaces(now) == join_spaces(sofar) + seq![' '] + ports@[i - 1]@);
                assert(resp@ =~= prefix + join_spaces(now));
            }
        }
        proof {
            assert(views_of(ports@).subrange(0, n as int) =~= views_of(ports@));
        }
    }
    resp
}

/// The reasons a baud-rate argument fails to parse as an unsigned integer,
/// mirroring how the standard integer parser reports them.
#[derive(Clone, Copy, PartialEq, Eq, Structural, Debug)]
pub enum BaudError {
    Empty,
    InvalidDigit,
    Overflow,
}

pub open spec fn is_decimal_digit(c: char) -> bool {
    '0' <= c && c <= '9'
}

pub open spec fn digit_value(c: char) -> nat {
    (c as nat - '0' as nat) as nat
}

/// Digit-by-digit accumulation of an unsigned decimal number, stopping at
/// the first non-digit or at the first value past `u32::MAX`.
pub open spec fn parse_digits(s: Seq<char>, acc: nat) -> Result<u32, BaudError>
    decreases s.len(),
{
    if s.len() == 0 {
        Ok(acc as u32)
    } else if !is_decimal_digit(s[0]) {
        Err(BaudError::InvalidDigit)
    } else {
        let acc2 = acc * 10 + digit_value(s[0]);
        if acc2 > u32::MAX {
            Err(BaudError::Overflow)
        } else {
            parse_digits(s.subrange(1, s.len() as int), acc2)
        }
    }
}

/// What parsing a baud-rate argument yields: a leading `+` is allowed, the
/// rest must be decimal digits whose value fits in 32 bits.
pub open spec fn parse_u32_spec(s: Seq<char>) -> Result<u32, BaudError> {
    if s.len() == 0 {
        Err(BaudError::Empty)
    } else {
        let body = if s[0] == '+' {
            s.subrange(1, s.len() as int)
        } else {
            s
        };
        if body.len() == 0 {
            Err(BaudError::InvalidDigit)
        } else {
            parse_digits(body, 0)
        }
    }
}

/// Parses a baud-rate argument as an unsigned 32-bit decimal integer.
pub fn parse_u32(s: &str) -> (r: Result<u32, BaudError>)
    ensures
        r == parse_u32_spec(s@),
{
    let len = s.unicode_len();
    if len == 0 {
        return Err(BaudError::Empty);
    }
    let first = s.get_char(0);
    let start: usize = if first == '+' {
        1
    } else {
        0
    };
    let ghost body = if first == '+' {
        s@.subrange(1, s@.len() as int)
    } else {
        s@
    };
    if start == len {
        return Err(BaudError::InvalidDigit);
    }
    let mut acc: u64 = 0;
    let mut i: usize = start;
    proof {
        assert(body.subrange(0, body.len() as int) =~= body);
    }
    while i < len
        invariant
            start <= i <= len,
            start <= 1,
            len == s@.len(),
            body.len() == len - start,
            forall|j: int| 0 <= j < body.len() ==> body[j] == s@[j + start],
            acc <= u32::MAX,
            parse_u32_spec(s@) == parse_digits(
                body.subrange(i - start, body.len() as int),
                acc as nat,
            ),
        decreases len - i,
    {
        let ghost rest = body.subrange(i - start, body.len() as int);
        let c = s.get_char(i);
        proof {
            assert(rest[0] == body[i - start]);
            assert(rest[0] == c);
        }
        let cv: u32 = c as u32;
        if cv < 48 || cv > 57 {
            proof {
                assert('0' as u32 == 48 && '9' as u32 == 57);
                assert(!is_decimal_digit(c));
            }
            return Err(BaudError::InvalidDigit);
        }
        let d: u32 = cv - 48;
        proof {
            assert('0' as u32 == 48 && '9' as u32 == 57);
            assert(is_decimal_digit(c));
            assert(d == digit_value(c));
        }
        let next: u64 = acc * 10 + (d as u64);
        if next > 0xffff_ffff {
            return Err(BaudError::Overflow);
        }
        acc = next;
        i = i + 1;
        proof {
            assert(rest.subrange(1, rest.len() as int) =~= body.subrange(
                i - start,
                body.len() as int,
            ));
        }
    }
    proof {
        assert(body.subrange(len - start, body.len() as int) =~= Seq::<char>::empty());
    }
    Ok(acc as u32)
}

/// The parser's description of a failure, word for word as the standard
/// integer parser prints it.
pub fn baud_error_message(e: &BaudError) -> (msg: String)
    ensures
        msg@ == baud_error_text(*e),
{
    match e {
        BaudError::Empty => String::from_str("cannot parse integer from empty string"),
        BaudError::InvalidDigit => String::from_str("invalid digit found in string"),
        BaudError::Overflow => String::from_str("number too large to fit in target type"),
    }
}

pub open spec fn baud_error_text(e: BaudError) -> Seq<char> {
    match e {
        BaudError::Empty => "cannot parse integer from empty string"@,
        BaudError::InvalidDigit => "invalid digit found in string"@,
        BaudError::Overflow => "number too large to fit in target type"@,
    }
}

/// An error response: `ERROR: ` followed by the failure description.
pub open spec fn error_text(msg: Seq<char>) -> Seq<char> {
    "ERROR: "@ + msg
}

/// Builds the error response for a failure description.
pub fn error_response(msg: &str) -> (resp: String)
    ensures
        resp@ == error_text(msg@),
{
    String::from_str("ERROR: ").concat(msg)
}

} // verus!
