//! Reading what `gpg` prints: a run's result, and the PIN retry counters of
//! `gpg --card-status`.
use vstd::prelude::*;
use vstd::string::*;
use vstd::utf8::*;
use crate::text::{
    chars_of, contains, contains_chars, is_char, lines, lines_of, parse_u8_radix,
    parse_u8_radix_chars, push_chars, split_by, split_char, split_whitespace, utf8_lossy,
    utf8_lossy_chars, views, words,
};

verus! {

/// The words that parse as decimal `u8` values, in order.
pub open spec fn parsed_numbers(ws: Seq<Seq<char>>) -> Seq<u8>
    decreases ws.len(),
{
    if ws.len() == 0 {
        Seq::empty()
    } else {
        let r = parsed_numbers(ws.drop_last());
        match parse_u8_radix(ws.last(), 10) {
            Some(v) => r.push(v),
            None => r,
        }
    }
}

/// The counters of a `PIN retry counter : a b c` line: the line must have
/// exactly one colon, and exactly three numbers after it.
pub open spec fn retries_of_line(line: Seq<char>) -> Option<(u8, u8, u8)> {
    if !contains(line, "PIN retry counter"@) {
        None
    } else {
        let parts = split_by(line, is_char(':'));
        if parts.len() != 2 {
            None
        } else {
            let ns = parsed_numbers(words(parts[1]));
            if ns.len() == 3 {
                Some((ns[0], ns[1], ns[2]))
            } else {
                None
            }
        }
    }
}

/// The counters of the first line that has them.
pub open spec fn first_retries(ls: Seq<Seq<char>>) -> Option<(u8, u8, u8)>
    decreases ls.len(),
{
    if ls.len() == 0 {
        None
    } else {
        match retries_of_line(ls[0]) {
            Some(r) => Some(r),
            None => first_retries(ls.skip(1)),
        }
    }
}

fn numbers_of(ws: &Vec<Vec<char>>) -> (r: Vec<u8>)
    ensures
        r@ == parsed_numbers(views(ws@)),
{
    let ghost wv = views(ws@);
    let mut r: Vec<u8> = Vec::new();
    let mut i: usize = 0;
    while i < ws.len()
        invariant
            wv == views(ws@),
            i <= ws@.len(),
            r@ == parsed_numbers(wv.take(i as int)),
        decreases ws@.len() - i,
    {
        assert(wv.take(i + 1).drop_last() =~= wv.take(i as int));
        assert(wv[i as int] == ws@[i as int]@);
        match parse_u8_radix_chars(&ws[i], 10) {
            Some(v) => r.push(v),
            None => {},
        }
        i = i + 1;
    }
    assert(wv.take(ws@.len() as int) =~= wv);
    r
}

/// The User PIN, Reset Code and Admin PIN retry counters in card status text
/// (see [`first_retries`]).
pub fn parse_pin_retries(card_status: &str) -> (r: Option<(u8, u8, u8)>)
    ensures
        r == first_retries(lines(card_status@)),
{
    let all = chars_of(card_status);
    let ls = lines_of(&all);
    let ghost lv = views(ls@);
    let key = chars_of("PIN retry counter");
    let mut i: usize = 0;
    assert(lv.skip(0) =~= lv);
    while i < ls.len()
        invariant
            lv == views(ls@),
            lv == lines(card_status@),
            i <= ls@.len(),
            key@ == "PIN retry counter"@,
            first_retries(lv) == first_retries(lv.skip(i as int)),
        decreases ls@.len() - i,
    {
        assert(lv.skip(i as int).skip(1) =~= lv.skip(i + 1));
        assert(lv.skip(i as int)[0] == ls@[i as int]@);
        let line = &ls[i];
        if contains_chars(line, &key) {
            let parts = split_char(line, ':');
            if parts.len() == 2 {
                assert(views(parts@)[1] == parts@[1]@);
                let ws = split_whitespace(&parts[1]);
                let ns = numbers_of(&ws);
                if ns.len() == 3 {
                    assert(retries_of_line(line@) == Some((ns@[0], ns@[1], ns@[2])));
                    assert(lv.skip(i as int).len() > 0);
                    assert(first_retries(lv.skip(i as int)) == retries_of_line(lv.skip(i as int)[0]));
                    return Some((ns[0], ns[1], ns[2]));
                }
            }
        }
        i = i + 1;
    }
    assert(lv.skip(ls@.len() as int) =~= Seq::<Seq<char>>::empty());
    None
}

/// A finished run of `gpg`: whether it exited successfully, and what it printed.
#[derive(Debug)]
pub struct GpgRun {
    pub success: bool,
    pub stdout: Vec<u8>,
    pub stderr: Vec<u8>,
}

/// `String::from_utf8`: the text of `b` where it is valid UTF-8, else the
/// error's message (its wording, std's `FromUtf8Error` display, is not stated).
#[verifier::external_body]
fn string_from_utf8(b: Vec<u8>) -> (r: Result<String, String>)
    ensures
        r is Ok == valid_utf8(b@),
        r matches Ok(s) ==> s@ == decode_utf8(b@),
{
    String::from_utf8(b).map_err(|e| e.to_string())
}

/// A `gpg` run's standard output; a failed run gives `GPG command failed: `
/// and its standard error, output that is not UTF-8 gives the decoding error.
pub fn gpg_command_output(run: GpgRun) -> (r: Result<String, String>)
    ensures
        !run.success ==> (r matches Err(e) && e@ == "GPG command failed: "@ + utf8_lossy(run.stderr@)),
        run.success ==> (r is Ok == valid_utf8(run.stdout@)),
        run.success ==> (r matches Ok(s) ==> s@ == decode_utf8(run.stdout@)),
{
    if !run.success {
        let mut e = String::from_str("GPG command failed: ");
        let t = utf8_lossy_chars(run.stderr.as_slice());
        push_chars(&mut e, t.as_slice());
        return Err(e);
    }
    string_from_utf8(run.stdout)
}

} // verus!
