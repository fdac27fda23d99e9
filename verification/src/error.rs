use vstd::prelude::*;
use vstd::string::*;

verus! {

/// In what way an expression is not the `require` of a path.
#[derive(Debug, Clone, Copy, PartialEq, Eq)]
pub enum RequireShape {
    /// It is no call.
    NotACall,
    /// It calls something other than `require`, or calls more than once.
    UnknownRequire,
    /// It calls `require` without parentheses, with no argument or with several.
    NotARequireCall,
    /// What is required is no path: it does not start with a name, or something other
    /// than `.name` and `['name']` follows the name.
    NotAPath,
    /// An index in brackets is no string.
    NotAStringIndex,
}

impl RequireShape {
    /// The refusal of `expression` in words.
    pub open spec fn message(self, expression: Seq<char>) -> Seq<char> {
        match self {
            RequireShape::NotACall => "'"@ + expression + "' is not a function call"@,
            RequireShape::UnknownRequire => "unknown require expression '"@ + expression
                + "'"@,
            RequireShape::NotARequireCall => "'"@ + expression
                + "' is not a require function call"@,
            RequireShape::NotAPath => "require expression not supported: expression must contain components of form `.value` or `['value']`: '"@
                + expression + "'"@,
            RequireShape::NotAStringIndex => "require expression not supported: expression contains brackets component not of the form ['value']: '"@
                + expression + "'"@,
        }
    }
}

/// Why a run, or the work on one link, failed.
#[derive(Debug, Clone, PartialEq, Eq)]
pub enum LinkError {
    /// The sourcemap could not be read.
    SourcemapLoad { message: String },
    /// A file path of the sourcemap has no canonical form, for this reason.
    PathCanonicalization { path: String, reason: String },
    /// The link does not end in the return of one call.
    MalformedLink { reason: String },
    /// The returned call is not `require` of a path that can be followed without running
    /// the link; `expression` is the part that is not, as written.
    UnsupportedRequireShape { shape: RequireShape, expression: String },
    /// The path starts with something other than `script` and `game`.
    UnsupportedAnchor { anchor: String },
    /// The path goes up from the root of the sourcemap.
    BrokenPath,
    /// No node of the sourcemap holds the file of the link.
    NotFound { path: String },
    /// The node reached through `chain` has no child called `name`.
    UnresolvedChild { chain: String, name: String },
    /// The node that the path leads to holds no module file.
    NoModuleFile { node: String },
    /// The required module could not be read for its type declarations.
    TypeExtraction { message: String },
}

/// A `LinkError` with the characters of its strings.
pub enum LinkErrorView {
    SourcemapLoad { message: Seq<char> },
    PathCanonicalization { path: Seq<char>, reason: Seq<char> },
    MalformedLink { reason: Seq<char> },
    UnsupportedRequireShape { shape: RequireShape, expression: Seq<char> },
    UnsupportedAnchor { anchor: Seq<char> },
    BrokenPath,
    NotFound { path: Seq<char> },
    UnresolvedChild { chain: Seq<char>, name: Seq<char> },
    NoModuleFile { node: Seq<char> },
    TypeExtraction { message: Seq<char> },
}

impl View for LinkError {
    type V = LinkErrorView;

    open spec fn view(&self) -> LinkErrorView {
        match self {
            LinkError::SourcemapLoad { message } => LinkErrorView::SourcemapLoad {
                message: message@,
            },
            LinkError::PathCanonicalization {
                path,
                reason,
            } => LinkErrorView::PathCanonicalization { path: path@, reason: reason@ },
            LinkError::MalformedLink { reason } => LinkErrorView::MalformedLink {
                reason: reason@,
            },
            LinkError::UnsupportedRequireShape {
                shape,
                expression,
            } => LinkErrorView::UnsupportedRequireShape { shape: *shape, expression: expression@ },
            LinkError::UnsupportedAnchor { anchor } => LinkErrorView::UnsupportedAnchor {
                anchor: anchor@,
            },
            LinkError::BrokenPath => LinkErrorView::BrokenPath,
            LinkError::NotFound { path } => LinkErrorView::NotFound { path: path@ },
            LinkError::UnresolvedChild { chain, name } => LinkErrorView::UnresolvedChild {
                chain: chain@,
                name: name@,
            },
            LinkError::NoModuleFile { node } => LinkErrorView::NoModuleFile { node: node@ },
            LinkError::TypeExtraction { message } => LinkErrorView::TypeExtraction {
                message: message@,
            },
        }
    }
}

impl LinkErrorView {
    /// Whether the error ends the run before any link is touched.
    pub open spec fn is_fatal(self) -> bool {
        self is SourcemapLoad || self is PathCanonicalization
    }

    /// The error in words.
    pub open spec fn message(self) -> Seq<char> {
        match self {
            LinkErrorView::SourcemapLoad { message } => message,
            LinkErrorView::PathCanonicalization { path, reason } => {
                let failure = "Failed to canonicalize '"@ + path + "'"@;
                if reason.len() == 0 {
                    failure
                } else {
                    failure + ": "@ + reason
                }
            },
            LinkErrorView::MalformedLink { reason } => reason,
            LinkErrorView::UnsupportedRequireShape { shape, expression } => shape.message(
                expression,
            ),
            LinkErrorView::UnsupportedAnchor { anchor } => "unsupported start of a require path: '"@
                + anchor + "'"@,
            LinkErrorView::BrokenPath => "No parent available"@,
            LinkErrorView::NotFound { path } => "could not find node path for '"@ + path + "'"@,
            LinkErrorView::UnresolvedChild { chain, name } => "unable to find child '"@ + name
                + "' of "@ + chain,
            LinkErrorView::NoModuleFile { node } => "No file path for require '"@ + node + "'"@,
            LinkErrorView::TypeExtraction { message } => message,
        }
    }
}

impl LinkError {
    /// Whether the error ends the run before any link is touched.
    pub fn is_fatal(&self) -> (fatal: bool)
        ensures
            fatal == self@.is_fatal(),
    {
        match self {
            LinkError::SourcemapLoad { .. } => true,
            LinkError::PathCanonicalization { .. } => true,
            _ => false,
        }
    }

    /// The error in words, with what an operator needs to mend the link or the sourcemap.
    pub fn to_string(&self) -> (message: String)
        ensures
            message@ == self@.message(),
    {
        match self {
            LinkError::SourcemapLoad { message } => message.clone(),
            LinkError::PathCanonicalization { path, reason } => {
                let mut out = String::from_str("Failed to canonicalize '");
                out.append(path.as_str());
                out.append("'");
                if reason.as_str().unicode_len() > 0 {
                    out.append(": ");
                    out.append(reason.as_str());
                }
                out
            },
            LinkError::MalformedLink { reason } => reason.clone(),
            LinkError::UnsupportedRequireShape { shape, expression } => match shape {
                RequireShape::NotACall => {
                    let mut out = String::from_str("'");
                    out.append(expression.as_str());
                    out.append("' is not a function call");
                    out
                },
                RequireShape::UnknownRequire => {
                    let mut out = String::from_str("unknown require expression '");
                    out.append(expression.as_str());
                    out.append("'");
                    out
                },
                RequireShape::NotARequireCall => {
                    let mut out = String::from_str("'");
                    out.append(expression.as_str());
                    out.append("' is not a require function call");
                    out
                },
                RequireShape::NotAPath => {
                    let mut out = String::from_str(
                        "require expression not supported: expression must contain components of form `.value` or `['value']`: '",
                    );
                    out.append(expression.as_str());
                    out.append("'");
                    out
                },
                RequireShape::NotAStringIndex => {
                    let mut out = String::from_str(
                        "require expression not supported: expression contains brackets component not of the form ['value']: '",
                    );
                    out.append(expression.as_str());
                    out.append("'");
                    out
                },
            },
            LinkError::UnsupportedAnchor { anchor } => {
                let mut out = String::from_str("unsupported start of a require path: '");
                out.append(anchor.as_str());
                out.append("'");
                out
            },
            LinkError::BrokenPath => String::from_str("No parent available"),
            LinkError::NotFound { path } => {
                let mut out = String::from_str("could not find node path for '");
                out.append(path.as_str());
                out.append("'");
                out
            },
            LinkError::UnresolvedChild { chain, name } => {
                let mut out = String::from_str("unable to find child '");
                out.append(name.as_str());
                out.append("' of ");
                out.append(chain.as_str());
                out
            },
            LinkError::NoModuleFile { node } => {
                let mut out = String::from_str("No file path for require '");
                out.append(node.as_str());
                out.append("'");
                out
            },
            LinkError::TypeExtraction { message } => message.clone(),
        }
    }

    /// A copy of the error.
    pub fn copy(&self) -> (out: LinkError)
        ensures
            out@ == self@,
    {
        match self {
            LinkError::SourcemapLoad { message } => LinkError::SourcemapLoad {
                message: message.clone(),
            },
            LinkError::PathCanonicalization { path, reason } => LinkError::PathCanonicalization {
                path: path.clone(),
                reason: reason.clone(),
            },
            LinkError::MalformedLink { reason } => LinkError::MalformedLink {
                reason: reason.clone(),
            },
            LinkError::UnsupportedRequireShape {
                shape,
                expression,
            } => LinkError::UnsupportedRequireShape {
                shape: *shape,
                expression: expression.clone(),
            },
            LinkError::UnsupportedAnchor { anchor } => LinkError::UnsupportedAnchor {
                anchor: anchor.clone(),
            },
            LinkError::BrokenPath => LinkError::BrokenPath,
            LinkError::NotFound { path } => LinkError::NotFound { path: path.clone() },
            LinkError::UnresolvedChild { chain, name } => LinkError::UnresolvedChild {
                chain: chain.clone(),
                name: name.clone(),
            },
            LinkError::NoModuleFile { node } => LinkError::NoModuleFile { node: node.clone() },
            LinkError::TypeExtraction { message } => LinkError::TypeExtraction {
                message: message.clone(),
            },
        }
    }
}

} // verus!
