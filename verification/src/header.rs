use vstd::prelude::*;
use vstd::utf8::{decode_utf8, valid_utf8};
use crate::errors::ParseError;

verus! {

/// Parser mode while scanning the header record.
#[derive(Clone, Copy, PartialEq, Eq, Structural, Debug)]
pub enum HeaderMode {
    /// Inside an unquoted field, or at a field boundary.
    Plain,
    /// Inside a quoted field, after the opening quote.
    Quoted,
    /// Just after a quote seen inside a quoted field: either the closing
    /// quote, or the first half of an escaped pair of quotes.
    QuoteSeen,
}

/// One-byte-at-a-time reading of the header record. `cur` is the field under
/// construction and `acc` the completed fields. The record ends at a line
/// feed, at a carriage return followed by a line feed, or at the end of the
/// buffer. `None` means the record is malformed: a quote inside an unquoted
/// field, content directly after a closing quote, a carriage return not
/// followed by a line feed, or an unterminated quoted field.
pub open spec fn header_step(
    b: Seq<u8>,
    mode: HeaderMode,
    cur: Seq<u8>,
    acc: Seq<Seq<u8>>,
) -> Option<Seq<Seq<u8>>>
    decreases b.len(),
{
    if b.len() == 0 {
        match mode {
            HeaderMode::Quoted => None,
            _ => Some(acc.push(cur)),
        }
    } else {
        let c = b[0];
        let rest = b.drop_first();
        match mode {
            HeaderMode::Plain => {
                if c == 44 {
                    header_step(rest, HeaderMode::Plain, Seq::empty(), acc.push(cur))
                } else if c == 10 {
                    Some(acc.push(cur))
                } else if c == 13 {
                    if rest.len() > 0 && rest[0] == 10 {
                        Some(acc.push(cur))
                    } else {
                        None
                    }
                } else if c == 34 {
                    if cur.len() == 0 {
                        header_step(rest, HeaderMode::Quoted, cur, acc)
                    } else {
                        None
                    }
                } else {
                    header_step(rest, HeaderMode::Plain, cur.push(c), acc)
                }
            },
            HeaderMode::Quoted => {
                if c == 34 {
                    header_step(rest, HeaderMode::QuoteSeen, cur, acc)
                } else {
                    header_step(rest, HeaderMode::Quoted, cur.push(c), acc)
                }
            },
            HeaderMode::QuoteSeen => {
                if c == 34 {
                    header_step(rest, HeaderMode::Quoted, cur.push(34), acc)
                } else if c == 44 {
                    header_step(rest, HeaderMode::Plain, Seq::empty(), acc.push(cur))
                } else if c == 10 {
                    Some(acc.push(cur))
                } else if c == 13 {
                    if rest.len() > 0 && rest[0] == 10 {
                        Some(acc.push(cur))
                    } else {
                        None
                    }
                } else {
                    None
                }
            },
        }
    }
}

/// The header record of a buffer: the first record read under the quoting
/// rules, or `None` when the buffer is empty or the record is malformed.
pub open spec fn raw_header(b: Seq<u8>) -> Option<Seq<Seq<u8>>> {
    if b.len() == 0 {
        None
    } else {
        header_step(b, HeaderMode::Plain, Seq::empty(), Seq::empty())
    }
}

/// Every raw field decodes as text.
pub open spec fn all_fields_text(fs: Seq<Seq<u8>>) -> bool {
    forall|i: int| 0 <= i < fs.len() ==> valid_utf8(#[trigger] fs[i])
}

/// The column names of a header: each raw field decoded from its bytes.
pub open spec fn decoded_fields(fs: Seq<Seq<u8>>) -> Seq<Seq<char>> {
    fs.map_values(|f: Seq<u8>| decode_utf8(f))
}

/// What header extraction yields on a byte buffer: the decoded column names
/// in their original order, or `None` when the buffer is empty, the first
/// record is malformed, or a column name is not valid text.
pub open spec fn spec_extract(b: Seq<u8>) -> Option<Seq<Seq<char>>> {
    match raw_header(b) {
        None => None,
        Some(fs) => if all_fields_text(fs) {
            Some(decoded_fields(fs))
        } else {
            None
        },
    }
}

/// Relies on `String::from_utf8`: per its documentation it succeeds exactly
/// on valid UTF-8 input and yields the decoded characters, stated here with
/// vstd's UTF-8 model.
#[verifier::external_body]
fn field_to_string(bytes: &Vec<u8>) -> (r: Option<String>)
    ensures
        match r {
            Some(s) => valid_utf8(bytes@) && s@ == decode_utf8(bytes@),
            None => !valid_utf8(bytes@),
        },
{
    String::from_utf8(bytes.clone()).ok()
}

/// Splits the first record of `bytes` into raw fields under the quoting
/// rules of `header_step`.
fn split_header(bytes: &Vec<u8>) -> (r: Result<Vec<Vec<u8>>, ParseError>)
    ensures
        match r {
            Ok(fs) => raw_header(bytes@) == Some(fs.deep_view()),
            Err(_) => raw_header(bytes@) is None,
        },
{
    let n = bytes.len();
    if n == 0 {
        return Err(ParseError);
    }
    let mut i: usize = 0;
    let mut mode = HeaderMode::Plain;
    let mut cur: Vec<u8> = Vec::new();
    let mut acc: Vec<Vec<u8>> = Vec::new();
    proof {
        assert(bytes@.skip(0) =~= bytes@);
        assert(acc.deep_view() =~~= Seq::<Seq<u8>>::empty());
    }
    while i < n
        invariant
            i <= n,
            n == bytes@.len(),
            n > 0,
            raw_header(bytes@) == header_step(
                bytes@.skip(i as int),
                mode,
                cur@,
                acc.deep_view(),
            ),
        decreases n - i,
    {
        let ghost pre = bytes@.skip(i as int);
        let ghost old_cur = cur@;
        let ghost old_acc = acc.deep_view();
        let c = bytes[i];
        proof {
            assert(pre.len() > 0);
            assert(pre[0] == c);
            assert(pre.drop_first() =~= bytes@.skip(i as int + 1));
        }
        match mode {
            HeaderMode::Plain => {
                if c == 44 {
                    acc.push(cur);
                    cur = Vec::new();
                    proof {
                        assert(acc.deep_view() =~~= old_acc.push(old_cur));
                    }
                    i = i + 1;
                } else if c == 10 {
                    acc.push(cur);
                    proof {
                        assert(acc.deep_view() =~~= old_acc.push(old_cur));
                    }
                    return Ok(acc);
                } else if c == 13 {
                    if i + 1 < n && bytes[i + 1] == 10 {
                        proof {
                            assert(pre.drop_first()[0] == bytes@[i as int + 1]);
                        }
                        acc.push(cur);
                        proof {
                            assert(acc.deep_view() =~~= old_acc.push(old_cur));
                        }
                        return Ok(acc);
                    } else {
                        proof {
                            if pre.drop_first().len() > 0 {
                                assert(pre.drop_first()[0] == bytes@[i as int + 1]);
                            }
                        }
                        return Err(ParseError);
                    }
                } else if c == 34 {
                    if cur.len() == 0 {
                        mode = HeaderMode::Quoted;
                        i = i + 1;
                    } else {
                        return Err(ParseError);
                    }
                } else {
                    cur.push(c);
                    i = i + 1;
                }
            },
            HeaderMode::Quoted => {
                if c == 34 {
                    mode = HeaderMode::QuoteSeen;
                    i = i + 1;
                } else {
                    cur.push(c);
                    i = i + 1;
                }
            },
            HeaderMode::QuoteSeen => {
                if c == 34 {
                    cur.push(c);
                    mode = HeaderMode::Quoted;
                    i = i + 1;
                } else if c == 44 {
                    acc.push(cur);
                    cur = Vec::new();
                    mode = HeaderMode::Plain;
                    proof {
                        assert(acc.deep_view() =~~= old_acc.push(old_cur));
                    }
                    i = i + 1;
                } else if c == 10 {
                    acc.push(cur);
                    proof {
                        assert(acc.deep_view() =~~= old_acc.push(old_cur));
                    }
                    return Ok(acc);
                } else if c == 13 {
                    if i + 1 < n && bytes[i + 1] == 10 {
                        proof {
                            assert(pre.drop_first()[0] == bytes@[i as int + 1]);
                        }
                        acc.push(cur);
                        proof {
                            assert(acc.deep_view() =~~= old_acc.push(old_cur));
                        }
                        return Ok(acc);
                    } else {
                        proof {
                            if pre.drop_first().len() > 0 {
                                assert(pre.drop_first()[0] == bytes@[i as int + 1]);
                            }
                        }
                        return Err(ParseError);
                    }
                } else {
                    return Err(ParseError);
                }
            },
        }
    }
    proof {
        assert(bytes@.skip(n as int) =~= Seq::<u8>::empty());
    }
    match mode {
        HeaderMode::Quoted => Err(ParseError),
        _ => {
            let ghost old_cur = cur@;
            let ghost old_acc = acc.deep_view();
            acc.push(cur);
            proof {
                assert(acc.deep_view() =~~= old_acc.push(old_cur));
            }
            Ok(acc)
        },
    }
}

/// Parses the first record of `bytes` as a delimited-text header and returns
/// the column names in their original order.
///
/// Succeeds exactly when the buffer is non-empty, its first record is
/// well-formed under the quoting rules, and every column name is valid
/// text; otherwise the result is `ParseError`. In particular, an empty
/// buffer is always rejected.
pub fn extract(bytes: &Vec<u8>) -> (r: Result<Vec<String>, ParseError>)
    ensures
        match r {
            Ok(cols) => spec_extract(bytes@) == Some(cols.deep_view()),
            Err(_) => spec_extract(bytes@) is None,
        },
        bytes@.len() == 0 ==> r is Err,
{
    let raw = match split_header(bytes) {
        Ok(fs) => fs,
        Err(e) => {
            return Err(e);
        },
    };
    let mut cols: Vec<String> = Vec::new();
    let mut j: usize = 0;
    let end = raw.len();
    while j < end
        invariant
            j <= end,
            end == raw@.len(),
            raw_header(bytes@) == Some(raw.deep_view()),
            cols@.len() == j,
            forall|k: int|
                0 <= k < j ==> valid_utf8(#[trigger] raw.deep_view()[k]) && cols.deep_view()[k]
                    == decode_utf8(raw.deep_view()[k]),
        decreases end - j,
    {
        proof {
            assert(raw.deep_view()[j as int] =~= raw@[j as int]@);
        }
        match field_to_string(&raw[j]) {
            Some(s) => {
                cols.push(s);
                j = j + 1;
            },
            None => {
                proof {
                    assert(!valid_utf8(raw.deep_view()[j as int]));
                    assert(!all_fields_text(raw.deep_view()));
                }
                return Err(ParseError);
            },
        }
    }
    proof {
        assert(all_fields_text(raw.deep_view()));
        assert(cols.deep_view() =~~= decoded_fields(raw.deep_view()));
    }
    Ok(cols)
}

} // verus!
