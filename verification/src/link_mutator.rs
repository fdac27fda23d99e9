use crate::error::{LinkError, LinkErrorView};
use crate::require_parser::Expr;
use crate::syntax::{exported_types, Program, Statement};
use crate::text::{concatenated, contains_string, copy_strings, join, joined, strings};
use vstd::prelude::*;
use vstd::string::*;

verus! {

/// What is read of the type that a generic parameter defaults to.
#[derive(Debug, Clone, PartialEq, Eq)]
pub enum DefaultType {
    /// A type given by its name alone, such as `string` or `Foo`.
    Basic { name: String },
    /// One of the types `true` and `false`.
    Boolean,
    /// Any other type.
    Other,
}

/// The default of a generic parameter.
#[derive(Debug, Clone, PartialEq, Eq)]
pub struct GenericDefault {
    pub type_info: DefaultType,
    /// The equals sign and the type, as written.
    pub text: String,
}

/// One parameter of a generic declaration, with the punctuation that follows it.
#[derive(Debug, Clone, PartialEq, Eq)]
pub struct GenericParameter {
    /// The name alone.
    pub name: String,
    /// Whether it is a pack, `T...`.
    pub is_variadic: bool,
    /// The parameter without its default, as written.
    pub text: String,
    pub default: Option<GenericDefault>,
    /// The comma after it, as written; empty after the last parameter.
    pub punctuation: String,
}

/// The generic parameters of a type declaration, between their arrows.
#[derive(Debug, Clone, PartialEq, Eq)]
pub struct Generics {
    pub open: String,
    pub parameters: Vec<GenericParameter>,
    pub close: String,
}

/// An exported type declaration, `export type Name<T> = ...`, token by token as
/// written, each token with the white space and comments around it.
#[derive(Debug, Clone, PartialEq, Eq)]
pub struct ExportedType {
    pub export_token: String,
    pub type_token: String,
    /// The declared name alone.
    pub name: String,
    /// The declared name, as written.
    pub name_text: String,
    pub generics: Option<Generics>,
    pub equal_token: String,
    /// The type that the name stands for, as written.
    pub definition: String,
}

/// A `DefaultType` with the characters of its strings.
pub enum DefaultTypeView {
    Basic { name: Seq<char> },
    Boolean,
    Other,
}

/// A `GenericDefault` with the characters of its strings.
pub struct GenericDefaultView {
    pub type_info: DefaultTypeView,
    pub text: Seq<char>,
}

/// A `GenericParameter` with the characters of its strings.
pub struct GenericParameterView {
    pub name: Seq<char>,
    pub is_variadic: bool,
    pub text: Seq<char>,
    pub default: Option<GenericDefaultView>,
    pub punctuation: Seq<char>,
}

/// `Generics` with the characters of their strings.
pub struct GenericsView {
    pub open: Seq<char>,
    pub parameters: Seq<GenericParameterView>,
    pub close: Seq<char>,
}

/// An `ExportedType` with the characters of its strings.
pub struct ExportedTypeView {
    pub export_token: Seq<char>,
    pub type_token: Seq<char>,
    pub name: Seq<char>,
    pub name_text: Seq<char>,
    pub generics: Option<GenericsView>,
    pub equal_token: Seq<char>,
    pub definition: Seq<char>,
}

impl View for DefaultType {
    type V = DefaultTypeView;

    open spec fn view(&self) -> DefaultTypeView {
        match self {
            DefaultType::Basic { name } => DefaultTypeView::Basic { name: name@ },
            DefaultType::Boolean => DefaultTypeView::Boolean,
            DefaultType::Other => DefaultTypeView::Other,
        }
    }
}

impl View for GenericDefault {
    type V = GenericDefaultView;

    open spec fn view(&self) -> GenericDefaultView {
        GenericDefaultView { type_info: self.type_info@, text: self.text@ }
    }
}

impl View for GenericParameter {
    type V = GenericParameterView;

    open spec fn view(&self) -> GenericParameterView {
        GenericParameterView {
            name: self.name@,
            is_variadic: self.is_variadic,
            text: self.text@,
            default: match self.default {
                Some(default) => Some(default@),
                None => None,
            },
            punctuation: self.punctuation@,
        }
    }
}

/// The views of the parameters of `v`, in order.
pub open spec fn parameter_views(v: Seq<GenericParameter>) -> Seq<
    GenericParameterView,
> {
    Seq::new(v.len(), |i: int| v[i]@)
}

impl View for Generics {
    type V = GenericsView;

    open spec fn view(&self) -> GenericsView {
        GenericsView {
            open: self.open@,
            parameters: parameter_views(self.parameters@),
            close: self.close@,
        }
    }
}

impl View for ExportedType {
    type V = ExportedTypeView;

    open spec fn view(&self) -> ExportedTypeView {
        ExportedTypeView {
            export_token: self.export_token@,
            type_token: self.type_token@,
            name: self.name@,
            name_text: self.name_text@,
            generics: match self.generics {
                Some(generics) => Some(generics@),
                None => None,
            },
            equal_token: self.equal_token@,
            definition: self.definition@,
        }
    }
}

/// The views of the declarations of `v`, in order.
pub open spec fn declaration_views(v: Seq<ExportedType>) -> Seq<
    ExportedTypeView,
> {
    Seq::new(v.len(), |i: int| v[i]@)
}

/// The names of the types that are defined wherever a declaration stands.
pub open spec fn builtin_type_names() -> Seq<Seq<char>> {
    seq![
        "any"@,
        "boolean"@,
        "buffer"@,
        "never"@,
        "number"@,
        "string"@,
        "thread"@,
        "unknown"@,
    ]
}

/// The names of `parameters`, in order.
pub open spec fn parameter_names(parameters: Seq<GenericParameterView>) -> Seq<
    Seq<char>,
> {
    Seq::new(parameters.len(), |i: int| parameters[i].name)
}

/// The names of `declarations`, in order.
pub open spec fn declaration_names(declarations: Seq<ExportedTypeView>) -> Seq<
    Seq<char>,
> {
    Seq::new(declarations.len(), |i: int| declarations[i].name)
}

/// The type names that a default of `declaration` may use once the declaration stands in
/// a link: its own parameters, the built-in types and the `known` names.
pub open spec fn resolved_type_names(
    declaration: ExportedTypeView,
    known: Seq<Seq<char>>,
) -> Seq<Seq<char>> {
    let own = match declaration.generics {
        Some(generics) => parameter_names(generics.parameters),
        None => Seq::empty(),
    };
    own + builtin_type_names() + known
}

/// Whether a default of this type still means something where only `resolved` are defined.
pub open spec fn keeps_default(type_info: DefaultTypeView, resolved: Seq<Seq<char>>) -> bool {
    match type_info {
        DefaultTypeView::Basic { name } => resolved.contains(name),
        DefaultTypeView::Boolean => true,
        DefaultTypeView::Other => false,
    }
}

/// `parameter`, without its default unless `resolved` lets the default stay.
pub open spec fn without_unknown_default(
    parameter: GenericParameterView,
    resolved: Seq<Seq<char>>,
) -> GenericParameterView {
    match parameter.default {
        Some(default) if keeps_default(default.type_info, resolved) => parameter,
        _ => GenericParameterView { default: None, ..parameter },
    }
}

/// Each of `parameters`, without its default unless `resolved` lets the default stay.
pub open spec fn without_unknown_defaults(
    parameters: Seq<GenericParameterView>,
    resolved: Seq<Seq<char>>,
) -> Seq<GenericParameterView> {
    Seq::new(parameters.len(), |i: int| without_unknown_default(parameters[i], resolved))
}

/// A parameter as it is written in a declaration.
pub open spec fn parameter_text(parameter: GenericParameterView) -> Seq<char> {
    let default = match parameter.default {
        Some(default) => default.text,
        None => Seq::empty(),
    };
    parameter.text + default + parameter.punctuation
}

/// A parameter as it is written where the declared type is applied.
pub open spec fn argument_text(parameter: GenericParameterView) -> Seq<char> {
    parameter.text + parameter.punctuation
}

/// Each of `parameters` as it is written in a declaration.
pub open spec fn parameter_texts(parameters: Seq<GenericParameterView>) -> Seq<
    Seq<char>,
> {
    Seq::new(parameters.len(), |i: int| parameter_text(parameters[i]))
}

/// Each of `parameters` as it is written where the declared type is applied.
pub open spec fn argument_texts(parameters: Seq<GenericParameterView>) -> Seq<
    Seq<char>,
> {
    Seq::new(parameters.len(), |i: int| argument_text(parameters[i]))
}

/// A generic declaration as it is written.
pub open spec fn generics_text(generics: GenericsView) -> Seq<char> {
    generics.open + concatenated(parameter_texts(generics.parameters)) + generics.close
}

/// A declaration as it is written.
pub open spec fn declaration_text(declaration: ExportedTypeView) -> Seq<char> {
    let generics = match declaration.generics {
        Some(generics) => generics_text(generics),
        None => Seq::empty(),
    };
    declaration.export_token + declaration.type_token + declaration.name_text + generics
        + declaration.equal_token + declaration.definition
}

/// The type of the same name in the required module, applied to the parameters of
/// `declaration` where it has any.
pub open spec fn forwarded_definition(declaration: ExportedTypeView) -> Seq<char> {
    let arguments = match declaration.generics {
        Some(generics) => "<"@ + concatenated(argument_texts(generics.parameters)) + ">"@,
        None => Seq::empty(),
    };
    "REQUIRED_MODULE"@ + "."@ + declaration.name_text + arguments
}

/// The declaration that a link holds for `declaration` of the module it requires, where
/// `known` are the names of the types that the link has declared by then.
pub open spec fn forwarded(
    declaration: ExportedTypeView,
    known: Seq<Seq<char>>,
) -> ExportedTypeView {
    ExportedTypeView {
        export_token: "export "@,
        type_token: declaration.type_token,
        name: declaration.name,
        name_text: declaration.name_text,
        generics: match declaration.generics {
            Some(generics) => Some(
                GenericsView {
                    open: generics.open,
                    parameters: without_unknown_defaults(
                        generics.parameters,
                        resolved_type_names(declaration, known),
                    ),
                    close: generics.close,
                },
            ),
            None => None,
        },
        equal_token: declaration.equal_token,
        definition: forwarded_definition(declaration),
    }
}

/// The declarations that a link holds for the `declarations` of the module it requires:
/// each one forwarded, knowing the names declared up to it.
pub open spec fn re_exported(declarations: Seq<ExportedTypeView>) -> Seq<
    ExportedTypeView,
> {
    Seq::new(
        declarations.len(),
        |i: int| forwarded(declarations[i], declaration_names(declarations.take(i + 1))),
    )
}

/// The names of the types that are defined wherever a declaration stands.
pub fn builtin_types() -> (names: Vec<String>)
    ensures
        strings(names@) == builtin_type_names(),
{
    let mut names: Vec<String> = Vec::new();
    names.push(String::from_str("any"));
    names.push(String::from_str("boolean"));
    names.push(String::from_str("buffer"));
    names.push(String::from_str("never"));
    names.push(String::from_str("number"));
    names.push(String::from_str("string"));
    names.push(String::from_str("thread"));
    names.push(String::from_str("unknown"));
    proof {
        assert(strings(names@) =~= builtin_type_names());
    }
    names
}

impl DefaultType {
    /// A copy of the type.
    pub fn copy(&self) -> (out: DefaultType)
        ensures
            out@ == self@,
    {
        match self {
            DefaultType::Basic { name } => DefaultType::Basic { name: name.clone() },
            DefaultType::Boolean => DefaultType::Boolean,
            DefaultType::Other => DefaultType::Other,
        }
    }
}

impl GenericParameter {
    /// A copy of the parameter, with its default only if `keep_default`.
    pub fn copy(&self, keep_default: bool) -> (out: GenericParameter)
        ensures
            out@ == if keep_default {
                self@
            } else {
                (GenericParameterView { default: None, ..self@ })
            },
    {
        let default = match &self.default {
            Some(default) if keep_default => Some(
                GenericDefault { type_info: default.type_info.copy(), text: default.text.clone() },
            ),
            _ => None,
        };
        GenericParameter {
            name: self.name.clone(),
            is_variadic: self.is_variadic,
            text: self.text.clone(),
            default,
            punctuation: self.punctuation.clone(),
        }
    }

    /// The parameter as it is written in a declaration.
    pub fn to_string(&self) -> (out: String)
        ensures
            out@ == parameter_text(self@),
    {
        let mut out = self.text.clone();
        match &self.default {
            Some(default) => {
                out.append(default.text.as_str());
            },
            None => {
                proof {
                    assert(self.text@ + Seq::<char>::empty() =~= self.text@);
                }
            },
        }
        out.append(self.punctuation.as_str());
        out
    }
}

/// Whether a default of this type is kept where only `resolved_types` are defined.
pub fn should_keep_default_type(type_info: &DefaultType, resolved_types: &Vec<String>) -> (keep: bool)
    ensures
        keep == keeps_default(type_info@, strings(resolved_types@)),
{
    match type_info {
        DefaultType::Basic { name } => contains_string(resolved_types, name),
        DefaultType::Boolean => true,
        DefaultType::Other => false,
    }
}

/// The parameters of `generics`, each without its default unless `resolved_types` lets
/// the default stay.
pub fn strip_unknown_default_generics(
    generics: &Generics,
    resolved_types: &Vec<String>,
) -> (parameters: Vec<GenericParameter>)
    ensures
        parameter_views(parameters@) == without_unknown_defaults(
            generics@.parameters,
            strings(resolved_types@),
        ),
{
    let mut parameters: Vec<GenericParameter> = Vec::new();
    let mut i: usize = 0;
    while i < generics.parameters.len()
        invariant
            i <= generics.parameters.len(),
            parameters@.len() == i,
            forall|k: int|
                0 <= k < i ==> parameters@[k]@ == without_unknown_default(
                    generics.parameters@[k]@,
                    strings(resolved_types@),
                ),
        decreases generics.parameters.len() - i,
    {
        let parameter = &generics.parameters[i];
        let keep = match &parameter.default {
            Some(default) => should_keep_default_type(&default.type_info, resolved_types),
            None => false,
        };
        parameters.push(parameter.copy(keep));
        i += 1;
    }
    proof {
        assert(parameter_views(parameters@) =~= without_unknown_defaults(
            generics@.parameters,
            strings(resolved_types@),
        ));
    }
    parameters
}

impl Generics {
    /// The generic declaration as it is written.
    pub fn to_string(&self) -> (out: String)
        ensures
            out@ == generics_text(self@),
    {
        let mut out = self.open.clone();
        let ghost texts = parameter_texts(self@.parameters);
        let mut i: usize = 0;
        while i < self.parameters.len()
            invariant
                i <= self.parameters.len(),
                texts == parameter_texts(self@.parameters),
                out@ == self.open@ + concatenated(texts.take(i as int)),
            decreases self.parameters.len() - i,
        {
            let text = self.parameters[i].to_string();
            proof {
                assert(texts.take(i + 1).drop_last() =~= texts.take(i as int));
                assert(texts.take(i + 1).last() == text@);
            }
            out.append(text.as_str());
            i += 1;
        }
        proof {
            assert(texts.take(texts.len() as int) =~= texts);
        }
        out.append(self.close.as_str());
        out
    }

    /// The parameters as they are written where the declared type is applied, between
    /// arrows of their own.
    pub fn arguments(&self) -> (out: String)
        ensures
            out@ == "<"@ + concatenated(argument_texts(self@.parameters)) + ">"@,
    {
        let mut out = String::from_str("<");
        let ghost texts = argument_texts(self@.parameters);
        let mut i: usize = 0;
        while i < self.parameters.len()
            invariant
                i <= self.parameters.len(),
                texts == argument_texts(self@.parameters),
                out@ == "<"@ + concatenated(texts.take(i as int)),
            decreases self.parameters.len() - i,
        {
            proof {
                assert(texts.take(i + 1).drop_last() =~= texts.take(i as int));
                assert(texts.take(i + 1).last() == self.parameters@[i as int]@.text
                    + self.parameters@[i as int]@.punctuation);
            }
            out.append(self.parameters[i].text.as_str());
            out.append(self.parameters[i].punctuation.as_str());
            i += 1;
        }
        proof {
            assert(texts.take(texts.len() as int) =~= texts);
        }
        out.append(">");
        out
    }
}

impl ExportedType {
    /// The declaration as it is written.
    pub fn to_string(&self) -> (out: String)
        ensures
            out@ == declaration_text(self@),
    {
        let mut out = self.export_token.clone();
        out.append(self.type_token.as_str());
        out.append(self.name_text.as_str());
        match &self.generics {
            Some(generics) => {
                let text = generics.to_string();
                out.append(text.as_str());
            },
            None => {
                proof {
                    assert(out@ + Seq::<char>::empty() =~= out@);
                }
            },
        }
        out.append(self.equal_token.as_str());
        out.append(self.definition.as_str());
        out
    }
}

/// The declaration that a link holds for `stmt`, a declaration of the module it
/// requires. The new declaration has the name and the parameters of `stmt`, and stands
/// for the type of that name in the required module. A parameter keeps its default only
/// where the default is `true`, `false`, a built-in type, a parameter of `stmt` or one of
/// `known_type_names`: nothing else is defined where the link stands.
pub fn create_new_type_declaration(
    stmt: &ExportedType,
    known_type_names: Vec<String>,
) -> (declaration: ExportedType)
    ensures
        declaration@ == forwarded(stmt@, strings(known_type_names@)),
{
    let mut definition = String::from_str("REQUIRED_MODULE");
    definition.append(".");
    definition.append(stmt.name_text.as_str());
    let generics = match &stmt.generics {
        Some(generics) => {
            let arguments = generics.arguments();
            definition.append(arguments.as_str());

            let mut resolved_types: Vec<String> = Vec::new();
            let mut i: usize = 0;
            while i < generics.parameters.len()
                invariant
                    i <= generics.parameters.len(),
                    resolved_types@.len() == i,
                    forall|k: int|
                        0 <= k < i ==> resolved_types@[k]@ == generics.parameters@[k]@.name,
                decreases generics.parameters.len() - i,
            {
                resolved_types.push(generics.parameters[i].name.clone());
                i += 1;
            }
            let mut builtin = builtin_types();
            let mut known = known_type_names;
            proof {
                assert(strings(resolved_types@) =~= parameter_names(generics@.parameters));
            }
            let ghost own = strings(resolved_types@);
            let ghost fixed = strings(builtin@);
            let ghost given = strings(known@);
            resolved_types.append(&mut builtin);
            proof {
                assert(strings(resolved_types@) =~= own + fixed);
            }
            resolved_types.append(&mut known);
            proof {
                assert(strings(resolved_types@) =~= own + fixed + given);
            }
            let parameters = strip_unknown_default_generics(generics, &resolved_types);
            Some(
                Generics {
                    open: generics.open.clone(),
                    parameters,
                    close: generics.close.clone(),
                },
            )
        },
        None => {
            proof {
                assert(definition@ + Seq::<char>::empty() =~= definition@);
            }
            None
        },
    };
    ExportedType {
        export_token: String::from_str("export "),
        type_token: stmt.type_token.clone(),
        name: stmt.name.clone(),
        name_text: stmt.name_text.clone(),
        generics,
        equal_token: stmt.equal_token.clone(),
        definition,
    }
}

/// The declarations that a link holds for `stmts`, the declarations of the module it
/// requires, in order. Each is forwarded knowing the names that `stmts` declares up to
/// it, itself included: what comes later is not yet defined where it stands.
pub fn re_export_type_declarations(stmts: Vec<ExportedType>) -> (declarations: Vec<
    ExportedType,
>)
    ensures
        declaration_views(declarations@) == re_exported(declaration_views(stmts@)),
{
    let mut declarations: Vec<ExportedType> = Vec::new();
    let mut known_type_names: Vec<String> = Vec::new();
    let ghost given = declaration_views(stmts@);
    let mut i: usize = 0;
    while i < stmts.len()
        invariant
            i <= stmts.len(),
            given == declaration_views(stmts@),
            declarations@.len() == i,
            known_type_names@.len() == i,
            strings(known_type_names@) == declaration_names(given.take(i as int)),
            forall|k: int|
                0 <= k < i ==> declarations@[k]@ == forwarded(
                    given[k],
                    declaration_names(given.take(k + 1)),
                ),
        decreases stmts.len() - i,
    {
        let ghost before = known_type_names@;
        known_type_names.push(stmts[i].name.clone());
        proof {
            let after = declaration_names(given.take(i + 1));
            assert forall|k: int| 0 <= k < i + 1 implies strings(known_type_names@)[k]
                == after[k] by {
                if k < i {
                    assert(known_type_names@[k] == before[k]);
                    assert(strings(before)[k] == declaration_names(given.take(i as int))[k]);
                }
            }
            assert(strings(known_type_names@) =~= after);
        }
        let known = copy_strings(&known_type_names);
        declarations.push(create_new_type_declaration(&stmts[i], known));
        i += 1;
    }
    proof {
        assert(declaration_views(declarations@) =~= re_exported(given));
    }
    declarations
}

/// What is read of a link.
#[derive(Debug, PartialEq, Eq)]
pub struct Link {
    /// The expressions that the last statement returns.
    pub returned: Vec<Expr>,
    /// The same expressions, as written.
    pub returned_text: String,
    /// What follows the last statement, as written.
    pub end_of_file: String,
}

/// What became of a link.
#[derive(Debug, Clone, PartialEq, Eq)]
pub enum MutateLinkResult {
    /// The link has this new text.
    Changed(String),
    /// The link stays as it is.
    Unchanged,
}

/// A `MutateLinkResult` with the characters of its text.
pub enum MutateLinkResultView {
    Changed(Seq<char>),
    Unchanged,
}

impl View for MutateLinkResult {
    type V = MutateLinkResultView;

    open spec fn view(&self) -> MutateLinkResultView {
        match self {
            MutateLinkResult::Changed(text) => MutateLinkResultView::Changed(text@),
            MutateLinkResult::Unchanged => MutateLinkResultView::Unchanged,
        }
    }
}

/// The statement that keeps what a link returned in a local variable.
pub open spec fn local_statement(returned_text: Seq<char>) -> Seq<char> {
    "local "@ + "REQUIRED_MODULE"@ + " = "@ + returned_text
}

/// The statement that returns that variable.
pub open spec fn return_statement() -> Seq<char> {
    "return "@ + "REQUIRED_MODULE"@ + "\n"@
}

/// Each of `declarations` as written, on a line of its own.
pub open spec fn declaration_lines(declarations: Seq<ExportedTypeView>) -> Seq<Seq<char>> {
    Seq::new(declarations.len(), |i: int| declaration_text(declarations[i]) + "\n"@)
}

/// The text of a link that holds `declarations`: what it returned goes to a local
/// variable, the declarations follow, and the variable is returned.
pub open spec fn link_text(
    returned_text: Seq<char>,
    end_of_file: Seq<char>,
    declarations: Seq<ExportedTypeView>,
) -> Seq<char> {
    local_statement(returned_text) + concatenated(declaration_lines(declarations))
        + return_statement() + end_of_file
}

/// What becomes of a link whose module exports `declarations`: with none it stays as it
/// is, else it forwards each of them.
pub open spec fn mutated(
    returned_text: Seq<char>,
    end_of_file: Seq<char>,
    declarations: Seq<ExportedTypeView>,
) -> MutateLinkResultView {
    if declarations.len() == 0 {
        MutateLinkResultView::Unchanged
    } else {
        MutateLinkResultView::Changed(
            link_text(returned_text, end_of_file, re_exported(declarations)),
        )
    }
}

/// The statement `local REQUIRED_MODULE = ...` that keeps what a link returned.
pub fn extract_require_into_local_stmt(return_expressions: &str) -> (statement: String)
    ensures
        statement@ == local_statement(return_expressions@),
{
    let mut statement = String::from_str("local ");
    statement.append("REQUIRED_MODULE");
    statement.append(" = ");
    statement.append(return_expressions);
    statement
}

/// The statement `return REQUIRED_MODULE`, with the end of its line.
pub fn create_return_require_variable() -> (statement: String)
    ensures
        statement@ == return_statement(),
{
    let mut statement = String::from_str("return ");
    statement.append("REQUIRED_MODULE");
    statement.append("\n");
    statement
}

/// What becomes of `link` when the module it requires exports `type_declarations`. With
/// none the link stays as it is. Else its new text keeps what it returned in a local
/// variable, forwards each declaration on a line of its own, and returns the variable.
pub fn forward_type_declarations(link: &Link, type_declarations: Vec<ExportedType>) -> (result:
    MutateLinkResult)
    ensures
        result@ == mutated(
            link.returned_text@,
            link.end_of_file@,
            declaration_views(type_declarations@),
        ),
        type_declarations@.len() == 0 <==> result == MutateLinkResult::Unchanged,
{
    if type_declarations.len() == 0 {
        return MutateLinkResult::Unchanged;
    }
    let ghost given = declaration_views(type_declarations@);
    let declarations = re_export_type_declarations(type_declarations);
    let ghost lines = declaration_lines(re_exported(given));
    let mut text = extract_require_into_local_stmt(link.returned_text.as_str());
    let mut i: usize = 0;
    while i < declarations.len()
        invariant
            i <= declarations.len(),
            declaration_views(declarations@) == re_exported(given),
            lines == declaration_lines(re_exported(given)),
            text@ == local_statement(link.returned_text@) + concatenated(lines.take(i as int)),
        decreases declarations.len() - i,
    {
        let line = declarations[i].to_string();
        proof {
            assert(declaration_views(declarations@)[i as int] == declarations@[i as int]@);
            assert(lines.take(i + 1).drop_last() =~= lines.take(i as int));
            assert(lines.take(i + 1).last() == line@ + "\n"@);
        }
        text.append(line.as_str());
        text.append("\n");
        i += 1;
    }
    proof {
        assert(lines.take(lines.len() as int) =~= lines);
    }
    let last = create_return_require_variable();
    text.append(last.as_str());
    text.append(link.end_of_file.as_str());
    MutateLinkResult::Changed(text)
}

impl Generics {
    /// A copy of the generic declaration.
    pub fn copy(&self) -> (out: Generics)
        ensures
            out@ == self@,
    {
        let mut parameters: Vec<GenericParameter> = Vec::new();
        let mut i: usize = 0;
        while i < self.parameters.len()
            invariant
                i <= self.parameters.len(),
                parameters@.len() == i,
                forall|k: int| 0 <= k < i ==> parameters@[k]@ == self.parameters@[k]@,
            decreases self.parameters.len() - i,
        {
            parameters.push(self.parameters[i].copy(true));
            i += 1;
        }
        proof {
            assert(parameter_views(parameters@) =~= parameter_views(self.parameters@));
        }
        Generics { open: self.open.clone(), parameters, close: self.close.clone() }
    }
}

impl ExportedType {
    /// A copy of the declaration.
    pub fn copy(&self) -> (out: ExportedType)
        ensures
            out@ == self@,
    {
        let generics = match &self.generics {
            Some(generics) => Some(generics.copy()),
            None => None,
        };
        ExportedType {
            export_token: self.export_token.clone(),
            type_token: self.type_token.clone(),
            name: self.name.clone(),
            name_text: self.name_text.clone(),
            generics,
            equal_token: self.equal_token.clone(),
            definition: self.definition.clone(),
        }
    }
}

/// Why no type declaration is had from a module that is no program: what the parser
/// said, one message on each line.
pub open spec fn extraction_failure(messages: Seq<Seq<char>>) -> LinkErrorView {
    LinkErrorView::TypeExtraction { message: joined(messages, "\n"@) }
}

/// The exported type declarations of a module, from what parsing its text gave: the
/// exported type declarations among the statements of the program, in order.
pub open spec fn module_declarations(source: Result<Program, Vec<String>>) -> Result<
    Seq<ExportedTypeView>,
    LinkErrorView,
> {
    match source {
        Ok(program) => Ok(exported_types(program.statements@, program.statements@.len() as int)),
        Err(messages) => Err(extraction_failure(strings(messages@))),
    }
}

/// What becomes of a link when parsing the text of its module gave `contents`.
pub open spec fn link_mutated(
    returned_text: Seq<char>,
    end_of_file: Seq<char>,
    contents: Result<Program, Vec<String>>,
) -> Result<MutateLinkResultView, LinkErrorView> {
    match module_declarations(contents) {
        Ok(declarations) => Ok(mutated(returned_text, end_of_file, declarations)),
        Err(error) => Err(error),
    }
}

/// The exported type declarations of a module, in order, from what parsing its text
/// gave: every exported type declaration among the statements of the program, and no
/// other statement. Fails where the text was no program, with what the parser said.
pub fn type_declarations_from_source(source: &Result<Program, Vec<String>>) -> (outcome: Result<
    Vec<ExportedType>,
    LinkError,
>)
    ensures
        match outcome {
            Ok(declarations) => module_declarations(*source) == Ok::<
                Seq<ExportedTypeView>,
                LinkErrorView,
            >(declaration_views(declarations@)),
            Err(error) => module_declarations(*source) == Err::<
                Seq<ExportedTypeView>,
                LinkErrorView,
            >(error@),
        },
{
    match source {
        Ok(program) => {
            let mut declarations: Vec<ExportedType> = Vec::new();
            let mut i: usize = 0;
            while i < program.statements.len()
                invariant
                    i <= program.statements.len(),
                    declaration_views(declarations@) == exported_types(
                        program.statements@,
                        i as int,
                    ),
                decreases program.statements.len() - i,
            {
                let ghost before = declaration_views(declarations@);
                match &program.statements[i] {
                    Statement::ExportedType(declaration) => {
                        declarations.push(declaration.copy());
                        proof {
                            assert(declaration_views(declarations@) =~= before.push(
                                declaration@,
                            ));
                        }
                    },
                    Statement::Other => {},
                }
                i += 1;
            }
            Ok(declarations)
        },
        Err(messages) => Err(LinkError::TypeExtraction { message: join(messages, "\n") }),
    }
}

/// What becomes of `link` when parsing the text of the module it requires gave
/// `contents`. Fails where that text was no program. Else the link stays as it is if the
/// module exports no type, and forwards the exported types if there are any.
pub fn mutate_link(link: &Link, contents: &Result<Program, Vec<String>>) -> (outcome: Result<
    MutateLinkResult,
    LinkError,
>)
    ensures
        match outcome {
            Ok(result) => link_mutated(link.returned_text@, link.end_of_file@, *contents)
                == Ok::<MutateLinkResultView, LinkErrorView>(result@),
            Err(error) => link_mutated(link.returned_text@, link.end_of_file@, *contents)
                == Err::<MutateLinkResultView, LinkErrorView>(error@),
        },
{
    match type_declarations_from_source(contents) {
        Ok(type_declarations) => Ok(forward_type_declarations(link, type_declarations)),
        Err(error) => Err(error),
    }
}

/// A forwarded declaration has the parameters of the declaration that it forwards, each
/// as written. A parameter keeps its default exactly if the default is `true`, `false`
/// or the name of a type that is defined where the link stands.
pub proof fn lemma_forwarded_parameters(
    declaration: ExportedTypeView,
    known: Seq<Seq<char>>,
    i: int,
)
    requires
        declaration.generics is Some,
        0 <= i < declaration.generics->0.parameters.len(),
    ensures
        forwarded(declaration, known).generics is Some,
        forwarded(declaration, known).generics->0.parameters.len()
            == declaration.generics->0.parameters.len(),
        ({
            let given = declaration.generics->0.parameters[i];
            let kept = forwarded(declaration, known).generics->0.parameters[i];
            let resolved = resolved_type_names(declaration, known);
            &&& kept.name == given.name
            &&& kept.is_variadic == given.is_variadic
            &&& kept.text == given.text
            &&& kept.punctuation == given.punctuation
            &&& kept.default == if given.default is Some && keeps_default(
                given.default->0.type_info,
                resolved,
            ) {
                given.default
            } else {
                None
            }
        }),
{
}

/// What a link holds for a declaration does not depend on the declarations that follow
/// it in the module: a name that is declared later is not yet defined.
pub proof fn lemma_later_declarations_do_not_count(
    declarations: Seq<ExportedTypeView>,
    i: int,
)
    requires
        0 <= i < declarations.len(),
    ensures
        re_exported(declarations)[i] == re_exported(declarations.take(i + 1))[i],
{
    let before = declarations.take(i + 1);
    assert(before.take(i + 1) =~= before);
    assert(before[i] == declarations[i]);
}

/// A type that the module declares before a declaration, or that the declaration itself
/// declares, may be the default of one of its parameters.
pub proof fn lemma_earlier_declarations_are_known(
    declarations: Seq<ExportedTypeView>,
    i: int,
    j: int,
)
    requires
        0 <= j <= i < declarations.len(),
    ensures
        keeps_default(
            DefaultTypeView::Basic { name: declarations[j].name },
            resolved_type_names(declarations[i], declaration_names(declarations.take(i + 1))),
        ),
{
    let known = declaration_names(declarations.take(i + 1));
    assert(known[j] == declarations[j].name);
    let resolved = resolved_type_names(declarations[i], known);
    let own = match declarations[i].generics {
        Some(generics) => parameter_names(generics.parameters),
        None => Seq::empty(),
    };
    assert(resolved[own.len() + builtin_type_names().len() + j] == declarations[j].name);
}

} // verus!
