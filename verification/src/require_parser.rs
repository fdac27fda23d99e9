use crate::error::{LinkError, LinkErrorView, RequireShape};
use crate::text::{str_eq, strings, trim, trimmed};
use vstd::prelude::*;
use vstd::string::*;

verus! {

/// What follows the start of an expression: one index or one call.
#[derive(Debug, PartialEq, Eq)]
pub enum ExprSuffix {
    /// `.name`, with the name as written.
    Dot { name: String },
    /// `[index]`, with what the index holds if it is a string.
    Brackets { literal: Option<String>, text: String },
    /// `(arguments)`.
    Call { arguments: Vec<Expr>, text: String },
    /// Any other suffix: a call without parentheses, a method call.
    Other { text: String },
}

/// What is read of an expression when a link is matched. Every `text` is the part as
/// written, with the white space and comments around it.
#[derive(Debug, PartialEq, Eq)]
pub enum Expr {
    /// An expression that ends in a call, such as `require(script.Parent.Example)`.
    FunctionCall { prefix: String, suffixes: Vec<ExprSuffix>, text: String },
    /// A name and what is indexed from it, such as `script.Parent['Example']`.
    Var { prefix: String, suffixes: Vec<ExprSuffix>, text: String },
    /// Any other expression.
    Other { text: String },
}

/// The refusal of `text`, a part of a link that cannot be followed.
pub open spec fn unsupported(shape: RequireShape, text: Seq<char>) -> LinkErrorView {
    LinkErrorView::UnsupportedRequireShape { shape, expression: trimmed(text) }
}

/// The component of a path that `suffix` stands for.
pub open spec fn suffix_component(suffix: ExprSuffix) -> Result<Seq<char>, LinkErrorView> {
    match suffix {
        ExprSuffix::Dot { name } => Ok(trimmed(name@)),
        ExprSuffix::Brackets { literal: Some(literal), .. } => Ok(trimmed(literal@)),
        ExprSuffix::Brackets { literal: None, text } => Err(
            unsupported(RequireShape::NotAStringIndex, text@),
        ),
        ExprSuffix::Call { text, .. } => Err(unsupported(RequireShape::NotAPath, text@)),
        ExprSuffix::Other { text } => Err(unsupported(RequireShape::NotAPath, text@)),
    }
}

/// The components that `suffixes` stand for, in order, or the refusal of the first of
/// them that stands for none.
pub open spec fn suffix_components(suffixes: Seq<ExprSuffix>) -> Result<Seq<Seq<char>>, LinkErrorView>
    decreases suffixes.len(),
{
    if suffixes.len() == 0 {
        Ok(Seq::empty())
    } else {
        match suffix_components(suffixes.drop_last()) {
            Ok(components) => match suffix_component(suffixes.last()) {
                Ok(component) => Ok(components.push(component)),
                Err(error) => Err(error),
            },
            Err(error) => Err(error),
        }
    }
}

/// The components of the path that `expression` is: its leading name, then what each
/// suffix stands for.
pub open spec fn expression_components(expression: Expr) -> Result<
    Seq<Seq<char>>,
    LinkErrorView,
> {
    match expression {
        Expr::Var { prefix, suffixes, .. } => match suffix_components(suffixes@) {
            Ok(components) => Ok(seq![trimmed(prefix@)] + components),
            Err(error) => Err(error),
        },
        Expr::FunctionCall { text, .. } => Err(unsupported(RequireShape::NotAPath, text@)),
        Expr::Other { text } => Err(unsupported(RequireShape::NotAPath, text@)),
    }
}

/// The components of the path that `expression` requires: `expression` is a call of
/// `require` with one argument in parentheses, and the argument is a path.
pub open spec fn required_components(expression: Expr) -> Result<
    Seq<Seq<char>>,
    LinkErrorView,
> {
    match expression {
        Expr::FunctionCall { prefix, suffixes, text } => {
            if trimmed(prefix@) == "require"@ && suffixes@.len() == 1 {
                match suffixes@[0] {
                    ExprSuffix::Call { arguments, .. } if arguments@.len() == 1 => {
                        expression_components(arguments@[0])
                    },
                    _ => Err(unsupported(RequireShape::NotARequireCall, text@)),
                }
            } else {
                Err(unsupported(RequireShape::UnknownRequire, text@))
            }
        },
        Expr::Var { text, .. } => Err(unsupported(RequireShape::NotACall, text@)),
        Expr::Other { text } => Err(unsupported(RequireShape::NotACall, text@)),
    }
}

/// Refuses `text`, a part of a link that cannot be followed.
fn refuse(shape: RequireShape, text: &String) -> (error: LinkError)
    ensures
        error@ == unsupported(shape, text@),
{
    LinkError::UnsupportedRequireShape { shape, expression: trim(text.as_str()) }
}

/// The component of a path that `suffix` stands for: the name of `.name` and of
/// `['name']`, without the white space around it. Any other suffix is refused.
pub fn suffix_to_component(suffix: &ExprSuffix) -> (outcome: Result<String, LinkError>)
    ensures
        match outcome {
            Ok(component) => suffix_component(*suffix) == Ok::<Seq<char>, LinkErrorView>(
                component@,
            ),
            Err(error) => suffix_component(*suffix) == Err::<Seq<char>, LinkErrorView>(error@),
        },
{
    match suffix {
        ExprSuffix::Dot { name } => Ok(trim(name.as_str())),
        ExprSuffix::Brackets { literal: Some(literal), .. } => Ok(trim(literal.as_str())),
        ExprSuffix::Brackets { literal: None, text } => Err(
            refuse(RequireShape::NotAStringIndex, text),
        ),
        ExprSuffix::Call { text, .. } => Err(refuse(RequireShape::NotAPath, text)),
        ExprSuffix::Other { text } => Err(refuse(RequireShape::NotAPath, text)),
    }
}

/// Takes a path apart into its components: the leading name, then one component for
/// each `.name` and each `['name']`, without the white space around them. Anything else
/// in the path is refused, with the offending part as written.
pub fn expression_to_components(expression: &Expr) -> (outcome: Result<
    Vec<String>,
    LinkError,
>)
    ensures
        match outcome {
            Ok(components) => expression_components(*expression) == Ok::<
                Seq<Seq<char>>,
                LinkErrorView,
            >(strings(components@)),
            Err(error) => expression_components(*expression) == Err::<
                Seq<Seq<char>>,
                LinkErrorView,
            >(error@),
        },
{
    match expression {
        Expr::Var { prefix, suffixes, .. } => {
            let mut components: Vec<String> = Vec::new();
            components.push(trim(prefix.as_str()));
            let ghost mut found: Seq<Seq<char>> = Seq::empty();
            let mut i: usize = 0;
            proof {
                assert(suffixes@.take(0) =~= Seq::<ExprSuffix>::empty());
                assert(strings(components@) =~= seq![trimmed(prefix@)] + found);
            }
            while i < suffixes.len()
                invariant
                    i <= suffixes.len(),
                    *expression matches Expr::Var { prefix: p, suffixes: s, .. } && p
                        == *prefix && s == *suffixes,
                    suffix_components(suffixes@.take(i as int)) == Ok::<
                        Seq<Seq<char>>,
                        LinkErrorView,
                    >(found),
                    strings(components@) == seq![trimmed(prefix@)] + found,
                decreases suffixes.len() - i,
            {
                proof {
                    assert(suffixes@.take(i + 1).drop_last() =~= suffixes@.take(i as int));
                    assert(suffixes@.take(i + 1).last() == suffixes@[i as int]);
                }
                match suffix_to_component(&suffixes[i]) {
                    Ok(component) => {
                        let ghost before = strings(components@);
                        proof {
                            found = found.push(component@);
                        }
                        components.push(component);
                        proof {
                            assert(strings(components@) =~= before.push(component@));
                            assert(strings(components@) =~= seq![trimmed(prefix@)] + found);
                        }
                    },
                    Err(error) => {
                        proof {
                            assert(suffix_components(suffixes@.take(i + 1)) is Err);
                            lemma_suffix_components_fail(suffixes@, i + 1);
                        }
                        return Err(error);
                    },
                }
                i += 1;
            }
            proof {
                assert(suffixes@.take(suffixes@.len() as int) =~= suffixes@);
            }
            Ok(components)
        },
        Expr::FunctionCall { text, .. } => Err(refuse(RequireShape::NotAPath, text)),
        Expr::Other { text } => Err(refuse(RequireShape::NotAPath, text)),
    }
}

/// Where the first `count` suffixes are refused, so are all of them, for the same reason.
pub proof fn lemma_suffix_components_fail(suffixes: Seq<ExprSuffix>, count: int)
    requires
        0 <= count <= suffixes.len(),
        suffix_components(suffixes.take(count)) is Err,
    ensures
        suffix_components(suffixes) == suffix_components(suffixes.take(count)),
    decreases suffixes.len() - count,
{
    if count < suffixes.len() {
        assert(suffixes.take(count + 1).drop_last() =~= suffixes.take(count));
        lemma_suffix_components_fail(suffixes, count + 1);
    } else {
        assert(suffixes.take(count) =~= suffixes);
    }
}

/// Matches the expression that a link returns, and gives the components of the path
/// that it requires. Only `require` with one argument in parentheses is matched, and the
/// argument must be a path; anything else is refused, with the offending part as written.
pub fn match_require(expression: &Expr) -> (outcome: Result<Vec<String>, LinkError>)
    ensures
        match outcome {
            Ok(components) => required_components(*expression) == Ok::<
                Seq<Seq<char>>,
                LinkErrorView,
            >(strings(components@)),
            Err(error) => required_components(*expression) == Err::<
                Seq<Seq<char>>,
                LinkErrorView,
            >(error@),
        },
{
    match expression {
        Expr::FunctionCall { prefix, suffixes, text } => {
            let name = trim(prefix.as_str());
            if str_eq(name.as_str(), "require") && suffixes.len() == 1 {
                match &suffixes[0] {
                    ExprSuffix::Call { arguments, .. } => {
                        if arguments.len() == 1 {
                            return expression_to_components(&arguments[0]);
                        }
                    },
                    _ => {},
                }
                Err(refuse(RequireShape::NotARequireCall, text))
            } else {
                Err(refuse(RequireShape::UnknownRequire, text))
            }
        },
        Expr::Var { text, .. } => Err(refuse(RequireShape::NotACall, text)),
        Expr::Other { text } => Err(refuse(RequireShape::NotACall, text)),
    }
}

} // verus!
