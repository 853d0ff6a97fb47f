//! The token classifier: inspects the literal token sequence of one macro
//! definition (token 0 is the macro name) and extracts its value strings.
//! Only a fixed set of shapes is recognized; every other shape is
//! unclassifiable and the macro is dropped from the IR.

use vstd::prelude::*;

use crate::strutil::str_eq;

verus! {

/// The classifier's contract, over token spellings:
///  - `NAME v`                    -> one value `v`
///  - `NAME ( v )`                -> one value `v`
///  - `NAME a : b`                -> the pair `a`, `b`
///  - `NAME ( a << b )`           -> one value `a<<b`
///  - `NAME ( ( a << b ) * c )`   -> one value `(a<<b)*c`
/// Anything else is unclassifiable (`None`).
pub open spec fn spec_classify(toks: Seq<Seq<char>>) -> Option<Seq<Seq<char>>> {
    if toks.len() == 2 {
        Some(seq![toks[1]])
    } else if toks.len() == 4 && toks[1] == "("@ && toks[3] == ")"@ {
        Some(seq![toks[2]])
    } else if toks.len() == 4 && toks[2] == ":"@ {
        Some(seq![toks[1], toks[3]])
    } else if toks.len() == 6 && toks[1] == "("@ && toks[5] == ")"@ && toks[3] == "<<"@ {
        Some(seq![toks[2] + "<<"@ + toks[4]])
    } else if toks.len() == 10 && toks[1] == "("@ && toks[9] == ")"@ && toks[4] == "<<"@
        && toks[7] == "*"@ {
        Some(seq!["("@ + toks[3] + "<<"@ + toks[5] + ")*"@ + toks[8]])
    } else {
        None
    }
}

/// Totality of the classifier: token sequences of length 2, 4, 6 and 10
/// matching the documented shapes classify to the specified values, and
/// every sequence of any other length is unclassifiable, so its macro is
/// never recorded.
pub proof fn lemma_classifier_totality(toks: Seq<Seq<char>>)
    ensures
        toks.len() != 2 && toks.len() != 4 && toks.len() != 6 && toks.len() != 10
            ==> spec_classify(toks) is None,
        toks.len() == 2 ==> spec_classify(toks) == Some(seq![toks[1]]),
        toks.len() == 4 && toks[1] == "("@ && toks[3] == ")"@ ==> spec_classify(toks)
            == Some(seq![toks[2]]),
        toks.len() == 4 && !(toks[1] == "("@ && toks[3] == ")"@) && toks[2] == ":"@
            ==> spec_classify(toks) == Some(seq![toks[1], toks[3]]),
        toks.len() == 6 && toks[1] == "("@ && toks[5] == ")"@ && toks[3] == "<<"@
            ==> spec_classify(toks) == Some(seq![toks[2] + "<<"@ + toks[4]]),
        toks.len() == 10 && toks[1] == "("@ && toks[9] == ")"@ && toks[4] == "<<"@ && toks[7]
            == "*"@ ==> spec_classify(toks) == Some(
            seq!["("@ + toks[3] + "<<"@ + toks[5] + ")*"@ + toks[8]],
        ),
{
}

/// Classifies one macro definition's token sequence, returning its value
/// strings, or `None` for a shape outside the recognized grammar.
pub fn classify_tokens(tokens: &Vec<String>) -> (r: Option<Vec<String>>)
    ensures
        match r {
            Some(vals) => spec_classify(tokens.deep_view()) == Some(vals.deep_view()),
            None => spec_classify(tokens.deep_view()) is None,
        },
{
    let n = tokens.len();
    if n == 2 {
        let mut vals: Vec<String> = Vec::new();
        vals.push(tokens[1].clone());
        proof {
            assert(vals.deep_view() =~= seq![tokens.deep_view()[1]]);
        }
        Some(vals)
    } else if n == 4 {
        if str_eq(tokens[1].as_str(), "(") && str_eq(tokens[3].as_str(), ")") {
            let mut vals: Vec<String> = Vec::new();
            vals.push(tokens[2].clone());
            proof {
                assert(vals.deep_view() =~= seq![tokens.deep_view()[2]]);
            }
            Some(vals)
        } else if str_eq(tokens[2].as_str(), ":") {
            let mut vals: Vec<String> = Vec::new();
            vals.push(tokens[1].clone());
            vals.push(tokens[3].clone());
            proof {
                assert(vals.deep_view()
                    =~= seq![tokens.deep_view()[1], tokens.deep_view()[3]]);
            }
            Some(vals)
        } else {
            None
        }
    } else if n == 6 {
        if str_eq(tokens[1].as_str(), "(") && str_eq(tokens[5].as_str(), ")")
            && str_eq(tokens[3].as_str(), "<<") {
            let mut s = tokens[2].clone();
            s.append("<<");
            s.append(tokens[4].as_str());
            let mut vals: Vec<String> = Vec::new();
            vals.push(s);
            proof {
                assert(vals.deep_view() =~= seq![
                    tokens.deep_view()[2] + "<<"@ + tokens.deep_view()[4],
                ]);
            }
            Some(vals)
        } else {
            None
        }
    } else if n == 10 {
        if str_eq(tokens[1].as_str(), "(") && str_eq(tokens[9].as_str(), ")")
            && str_eq(tokens[4].as_str(), "<<") && str_eq(tokens[7].as_str(), "*") {
            let mut s = String::from_str("(");
            s.append(tokens[3].as_str());
            s.append("<<");
            s.append(tokens[5].as_str());
            s.append(")*");
            s.append(tokens[8].as_str());
            let mut vals: Vec<String> = Vec::new();
            vals.push(s);
            proof {
                assert(vals.deep_view() =~= seq![
                    "("@ + tokens.deep_view()[3] + "<<"@ + tokens.deep_view()[5] + ")*"@
                        + tokens.deep_view()[8],
                ]);
            }
            Some(vals)
        } else {
            None
        }
    } else {
        None
    }
}

} // verus!
