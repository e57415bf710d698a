//! A minimal tag/attribute scanner for a fixed event-log export shape. It
//! extracts a named element's inner text (first occurrence, up to the
//! matching close tag) and a named attribute on a named element (single- or
//! double-quoted). It is not a general parser: malformed input yields
//! absent values, never an error.

use vstd::prelude::*;
use crate::text::{
    chars_string, find_sub, first_match, lemma_first_match_at, str_chars, subvec, trim_chars,
    trim_spec, append_chars,
};

verus! {

/// What inner-text extraction yields: find `<tag`, skip to the end of that
/// opening tag, take everything up to the matching close tag, and trim it.
/// Whitespace-only text counts as absent.
pub open spec fn xml_value_spec(xml: Seq<char>, tag: Seq<char>) -> Option<Seq<char>> {
    match first_match(xml, seq!['<'] + tag) {
        None => None,
        Some(st) => {
            let rest = xml.subrange(st, xml.len() as int);
            match first_match(rest, seq!['>']) {
                None => None,
                Some(gt) => {
                    let content = rest.subrange(gt + 1, rest.len() as int);
                    match first_match(content, seq!['<', '/'] + tag + seq!['>']) {
                        None => None,
                        Some(e) => {
                            let val = trim_spec(content.subrange(0, e));
                            if val.len() == 0 {
                                None
                            } else {
                                Some(val)
                            }
                        },
                    }
                },
            }
        },
    }
}

/// What attribute extraction yields: within the first `<tag ...>` opening
/// tag, the text between `attr='` and the next `'`, or between `attr="` and
/// the next `"` when no single-quoted form is present.
pub open spec fn xml_attr_spec(xml: Seq<char>, tag: Seq<char>, attr: Seq<char>) -> Option<
    Seq<char>,
> {
    match first_match(xml, seq!['<'] + tag) {
        None => None,
        Some(st) => {
            let rest = xml.subrange(st, xml.len() as int);
            match first_match(rest, seq!['>']) {
                None => None,
                Some(gt) => {
                    let tag_content = rest.subrange(0, gt);
                    match first_match(tag_content, attr + seq!['=', '\'']) {
                        Some(a) => {
                            let vr = tag_content.subrange(a + attr.len() + 2, gt);
                            match first_match(vr, seq!['\'']) {
                                Some(e) => Some(vr.subrange(0, e)),
                                None => None,
                            }
                        },
                        None => match first_match(tag_content, attr + seq!['=', '"']) {
                            Some(a) => {
                                let vr = tag_content.subrange(a + attr.len() + 2, gt);
                                match first_match(vr, seq!['"']) {
                                    Some(e) => Some(vr.subrange(0, e)),
                                    None => None,
                                }
                            },
                            None => None,
                        },
                    }
                },
            }
        },
    }
}

/// Extracts the inner text of the first `tag` element of `xml`.
pub fn extract_xml_value(xml: &str, tag: &str) -> (r: Option<String>)
    ensures
        match r {
            Some(s) => xml_value_spec(xml@, tag@) == Some(s@),
            None => xml_value_spec(xml@, tag@) is None,
        },
{
    let xv = str_chars(xml);
    let tv = str_chars(tag);
    let mut open_pat: Vec<char> = Vec::new();
    open_pat.push('<');
    append_chars(&mut open_pat, &tv);
    proof {
        assert(open_pat@ =~= seq!['<'] + tag@);
    }
    let st = match find_sub(&xv, &open_pat) {
        Some(i) => i,
        None => {
            return None;
        },
    };
    proof {
        lemma_first_match_at(xv@, open_pat@, 0);
    }
    let rest = subvec(&xv, st, xv.len());
    let mut gt_pat: Vec<char> = Vec::new();
    gt_pat.push('>');
    proof {
        assert(gt_pat@ =~= seq!['>']);
    }
    let gt = match find_sub(&rest, &gt_pat) {
        Some(i) => i,
        None => {
            return None;
        },
    };
    proof {
        lemma_first_match_at(rest@, gt_pat@, 0);
    }
    let content = subvec(&rest, gt + 1, rest.len());
    let mut close_pat: Vec<char> = Vec::new();
    close_pat.push('<');
    close_pat.push('/');
    append_chars(&mut close_pat, &tv);
    close_pat.push('>');
    proof {
        assert(close_pat@ =~= seq!['<', '/'] + tag@ + seq!['>']);
    }
    let e = match find_sub(&content, &close_pat) {
        Some(i) => i,
        None => {
            return None;
        },
    };
    proof {
        lemma_first_match_at(content@, close_pat@, 0);
    }
    let body = subvec(&content, 0, e);
    let val = trim_chars(&body);
    if val.len() == 0 {
        None
    } else {
        Some(chars_string(&val))
    }
}

/// Extracts the value of `attr` on the first `tag` element of `xml`.
pub fn extract_xml_attr(xml: &str, tag: &str, attr: &str) -> (r: Option<String>)
    ensures
        match r {
            Some(s) => xml_attr_spec(xml@, tag@, attr@) == Some(s@),
            None => xml_attr_spec(xml@, tag@, attr@) is None,
        },
{
    let xv = str_chars(xml);
    let tv = str_chars(tag);
    let av = str_chars(attr);
    let mut open_pat: Vec<char> = Vec::new();
    open_pat.push('<');
    append_chars(&mut open_pat, &tv);
    proof {
        assert(open_pat@ =~= seq!['<'] + tag@);
    }
    let st = match find_sub(&xv, &open_pat) {
        Some(i) => i,
        None => {
            return None;
        },
    };
    proof {
        lemma_first_match_at(xv@, open_pat@, 0);
    }
    let rest = subvec(&xv, st, xv.len());
    let mut gt_pat: Vec<char> = Vec::new();
    gt_pat.push('>');
    proof {
        assert(gt_pat@ =~= seq!['>']);
    }
    let gt = match find_sub(&rest, &gt_pat) {
        Some(i) => i,
        None => {
            return None;
        },
    };
    proof {
        lemma_first_match_at(rest@, gt_pat@, 0);
    }
    let tag_content = subvec(&rest, 0, gt);
    let mut single_pat: Vec<char> = Vec::new();
    append_chars(&mut single_pat, &av);
    single_pat.push('=');
    single_pat.push('\'');
    proof {
        assert(single_pat@ =~= attr@ + seq!['=', '\'']);
    }
    match find_sub(&tag_content, &single_pat) {
        Some(a) => {
            proof {
                lemma_first_match_at(tag_content@, single_pat@, 0);
            }
            let vr = subvec(&tag_content, a + av.len() + 2, tag_content.len());
            let mut q_pat: Vec<char> = Vec::new();
            q_pat.push('\'');
            proof {
                assert(q_pat@ =~= seq!['\'']);
            }
            match find_sub(&vr, &q_pat) {
                Some(e) => {
                    proof {
                        lemma_first_match_at(vr@, q_pat@, 0);
                    }
                    let out = subvec(&vr, 0, e);
                    Some(chars_string(&out))
                },
                None => None,
            }
        },
        None => {
            let mut double_pat: Vec<char> = Vec::new();
            append_chars(&mut double_pat, &av);
            double_pat.push('=');
            double_pat.push('"');
            proof {
                assert(double_pat@ =~= attr@ + seq!['=', '"']);
            }
            match find_sub(&tag_content, &double_pat) {
                Some(a) => {
                    proof {
                        lemma_first_match_at(tag_content@, double_pat@, 0);
                    }
                    let vr = subvec(&tag_content, a + av.len() + 2, tag_content.len());
                    let mut q_pat: Vec<char> = Vec::new();
                    q_pat.push('"');
                    proof {
                        assert(q_pat@ =~= seq!['"']);
                    }
                    match find_sub(&vr, &q_pat) {
                        Some(e) => {
                            proof {
                                lemma_first_match_at(vr@, q_pat@, 0);
                            }
                            let out = subvec(&vr, 0, e);
                            Some(chars_string(&out))
                        },
                        None => None,
                    }
                },
                None => None,
            }
        },
    }
}

} // verus!
