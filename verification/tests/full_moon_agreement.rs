use full_moon::ast::punctuated::Pair;
use full_moon::ast::{self, luau};
use full_moon::node::Node;
use full_moon::tokenizer::{TokenReference, TokenType};
use wally_package_types::link_mutator::{
    DefaultType, ExportedType, GenericDefault, GenericParameter, Generics,
};
use wally_package_types::require_parser::{Expr, ExprSuffix};
use wally_package_types::syntax::{LastStatement, Program, Statement};
use full_moon::ast::luau::{
    ExportedTypeDeclaration, GenericDeclaration, GenericDeclarationParameter, GenericParameterInfo,
    IndexedTypeInfo, TypeInfo,
};
use full_moon::ast::punctuated::Punctuated;
use full_moon::ast::span::ContainedSpan;
use full_moon::ast::{Ast, Expression, LastStmt, LocalAssignment, Return, Stmt};
use full_moon::tokenizer::Token;
use wally_package_types::command::parse_link;
use wally_package_types::link_mutator::{
    mutate_link, re_export_type_declarations, type_declarations_from_source, MutateLinkResult,
};

/// Parses `code` with full_moon and gives the program as a plain value.
fn parse(code: &str) -> Result<Program, Vec<String>> {
    match full_moon::parse(code) {
        Ok(tree) => Ok(read_program(&tree)),
        Err(errors) => Err(errors.iter().map(|error| error.to_string()).collect()),
    }
}

/// The declared name: the token after `type`.
fn declared_name(declaration: &luau::TypeDeclaration) -> &TokenReference {
    declaration.tokens().nth(1).unwrap()
}

fn read_index(suffix: &ast::Suffix) -> ExprSuffix {
    match suffix {
        ast::Suffix::Index(ast::Index::Dot { name, .. }) => ExprSuffix::Dot { name: name.to_string() },
        ast::Suffix::Index(ast::Index::Brackets { expression, .. }) => ExprSuffix::Brackets {
            literal: string_literal(expression),
            text: suffix.to_string(),
        },
        _ => ExprSuffix::Other { text: suffix.to_string() },
    }
}

fn string_literal(expression: &ast::Expression) -> Option<String> {
    match expression {
        ast::Expression::String(token) => match token.token_type() {
            TokenType::StringLiteral { literal, .. } => Some(literal.to_string()),
            _ => None,
        },
        _ => None,
    }
}

/// An argument of a call; calls inside it are kept as written and not read further.
fn read_argument(expression: &ast::Expression) -> Expr {
    let text = expression.to_string();
    match expression {
        ast::Expression::FunctionCall(call) => Expr::FunctionCall {
            prefix: call.prefix().to_string(),
            suffixes: call.suffixes().map(read_index).collect(),
            text,
        },
        ast::Expression::Var(ast::Var::Expression(var)) => match var.prefix() {
            ast::Prefix::Name(name) => Expr::Var {
                prefix: name.to_string(),
                suffixes: var.suffixes().map(read_index).collect(),
                text,
            },
            _ => Expr::Other { text },
        },
        ast::Expression::Var(ast::Var::Name(name)) => {
            Expr::Var { prefix: name.to_string(), suffixes: Vec::new(), text }
        }
        _ => Expr::Other { text },
    }
}

fn read_suffix(suffix: &ast::Suffix) -> ExprSuffix {
    match suffix {
        ast::Suffix::Call(ast::Call::AnonymousCall(ast::FunctionArgs::Parentheses {
            arguments, ..
        })) => ExprSuffix::Call {
            arguments: arguments.iter().map(read_argument).collect(),
            text: suffix.to_string(),
        },
        _ => read_index(suffix),
    }
}

/// An expression that a program returns, with the arguments of the calls it ends in.
fn read_expression(expression: &ast::Expression) -> Expr {
    match expression {
        ast::Expression::FunctionCall(call) => Expr::FunctionCall {
            prefix: call.prefix().to_string(),
            suffixes: call.suffixes().map(read_suffix).collect(),
            text: expression.to_string(),
        },
        _ => read_argument(expression),
    }
}

fn read_default(parameter: &luau::GenericDeclarationParameter) -> Option<GenericDefault> {
    let default = parameter.default_type()?;
    let equals = parameter.equals().map(|token| token.to_string()).unwrap_or_default();
    let type_info = match default {
        luau::TypeInfo::Basic(name) => DefaultType::Basic { name: name.token().to_string() },
        luau::TypeInfo::Boolean(_) => DefaultType::Boolean,
        _ => DefaultType::Other,
    };
    Some(GenericDefault { type_info, text: format!("{}{}", equals, default) })
}

fn read_parameter(pair: &Pair<luau::GenericDeclarationParameter>) -> GenericParameter {
    let parameter = pair.value();
    let text = parameter.parameter().to_string();
    let (name, is_variadic) = match parameter.parameter() {
        luau::GenericParameterInfo::Name(name) => (name.token().to_string(), false),
        luau::GenericParameterInfo::Variadic { name, .. } => (name.token().to_string(), true),
        _ => (text.trim().to_string(), false),
    };
    GenericParameter {
        name,
        is_variadic,
        text,
        default: read_default(parameter),
        punctuation: pair.punctuation().map(|token| token.to_string()).unwrap_or_default(),
    }
}

fn read_declaration(declaration: &luau::ExportedTypeDeclaration) -> ExportedType {
    let inner = declaration.type_declaration();
    let name = declared_name(inner);
    ExportedType {
        export_token: declaration.export_token().to_string(),
        type_token: inner.type_token().to_string(),
        name: name.token().to_string(),
        name_text: name.to_string(),
        generics: inner.generics().map(|generics| Generics {
            open: generics.arrows().tokens().0.to_string(),
            parameters: generics.generics().pairs().map(read_parameter).collect(),
            close: generics.arrows().tokens().1.to_string(),
        }),
        equal_token: inner.equal_token().to_string(),
        definition: inner.type_definition().to_string(),
    }
}

fn read_statement(statement: &ast::Stmt) -> Statement {
    match statement {
        ast::Stmt::ExportedTypeDeclaration(declaration) => {
            Statement::ExportedType(read_declaration(declaration))
        }
        _ => Statement::Other,
    }
}

fn read_last(last: &ast::LastStmt) -> LastStatement {
    match last {
        ast::LastStmt::Return(statement) => LastStatement::Return {
            returned: statement.returns().iter().map(read_expression).collect(),
            returned_text: statement.returns().to_string(),
        },
        _ => LastStatement::Other,
    }
}

/// The program as a plain value: every statement in order, the statement that ends it,
/// and what follows, each part as full_moon prints it.
fn read_program(tree: &ast::Ast) -> Program {
    Program {
        statements: tree.nodes().stmts().map(read_statement).collect(),
        last: tree.nodes().last_stmt().map(read_last),
        end_of_file: tree.eof().to_string(),
    }
}

fn identifier(name: &str, trailing: Vec<Token>) -> TokenReference {
    TokenReference::new(vec![], Token::new(TokenType::Identifier { identifier: name.into() }), trailing)
}

fn newline() -> Token {
    Token::new(TokenType::Whitespace { characters: "\n".into() })
}

fn keeps(type_info: &TypeInfo, resolved: &[String]) -> bool {
    match type_info {
        TypeInfo::Basic(name) => resolved.contains(&name.token().to_string()),
        TypeInfo::Boolean(_) => true,
        _ => false,
    }
}

fn strip(generics: &GenericDeclaration, resolved: &[String]) -> Punctuated<GenericDeclarationParameter> {
    generics
        .generics()
        .pairs()
        .map(|pair| {
            pair.clone().map(|decl| match decl.default_type() {
                Some(type_info) if keeps(type_info, resolved) => decl,
                _ => decl.with_default(None),
            })
        })
        .collect()
}

/// The forwarding declaration, built as a syntax tree.
fn forward(stmt: &ExportedTypeDeclaration, known: Vec<String>) -> ExportedTypeDeclaration {
    let declaration = stmt.type_declaration();
    let name = declaration.tokens_of_name();
    let type_info = match declaration.generics() {
        Some(generics) => IndexedTypeInfo::Generic {
            base: name.clone(),
            arrows: ContainedSpan::new(
                TokenReference::symbol("<").unwrap(),
                TokenReference::symbol(">").unwrap(),
            ),
            generics: generics
                .generics()
                .pairs()
                .map(|pair| {
                    pair.clone().map(|decl| match decl.parameter() {
                        GenericParameterInfo::Name(token) => TypeInfo::Basic(token.clone()),
                        GenericParameterInfo::Variadic { name, ellipsis } => TypeInfo::GenericPack {
                            name: name.clone(),
                            ellipsis: ellipsis.clone(),
                        },
                        _ => unreachable!(),
                    })
                })
                .collect(),
        },
        None => IndexedTypeInfo::Basic(name.clone()),
    };
    let mut resolved: Vec<String> = declaration.generics().map_or(vec![], |generics| {
        generics
            .generics()
            .iter()
            .map(|generic| match generic.parameter() {
                GenericParameterInfo::Name(name) => name.token().to_string(),
                GenericParameterInfo::Variadic { name, .. } => name.token().to_string(),
                _ => unreachable!(),
            })
            .collect()
    });
    resolved.extend(
        ["any", "boolean", "buffer", "never", "number", "string", "thread", "unknown"]
            .into_iter()
            .map(String::from)
            .chain(known),
    );
    let kept = match declaration.generics() {
        Some(generics) => declaration
            .clone()
            .with_generics(Some(generics.clone().with_generics(strip(generics, &resolved)))),
        None => declaration.clone(),
    };
    ExportedTypeDeclaration::new(kept.with_type_definition(TypeInfo::Module {
        module: identifier("REQUIRED_MODULE", vec![]),
        punctuation: TokenReference::symbol(".").unwrap(),
        type_info: Box::new(type_info),
    }))
}

trait NameOf {
    fn tokens_of_name(&self) -> &TokenReference;
}

impl NameOf for full_moon::ast::luau::TypeDeclaration {
    /// The declared name: the token after `type`.
    fn tokens_of_name(&self) -> &TokenReference {
        self.tokens().nth(1).unwrap()
    }
}

fn exported(module: &Ast) -> Vec<ExportedTypeDeclaration> {
    module
        .nodes()
        .stmts()
        .filter_map(|stmt| match stmt {
            Stmt::ExportedTypeDeclaration(stmt) => Some(stmt.clone()),
            _ => None,
        })
        .collect()
}

fn forward_all(declarations: &[ExportedTypeDeclaration]) -> Vec<ExportedTypeDeclaration> {
    let mut known = Vec::new();
    let mut forwarded = Vec::new();
    for declaration in declarations {
        known.push(declaration.type_declaration().tokens_of_name().token().to_string());
        forwarded.push(forward(declaration, known.clone()));
    }
    forwarded
}

/// The new link, built as a syntax tree and printed by full_moon.
fn rewritten(link: &str, module: &str) -> Option<String> {
    let link = full_moon::parse(link).unwrap();
    let module = full_moon::parse(module).unwrap();
    let Some(LastStmt::Return(last)) = link.nodes().last_stmt() else {
        unreachable!()
    };
    let declarations = exported(&module);
    if declarations.is_empty() {
        return None;
    }
    let local = Stmt::LocalAssignment(
        LocalAssignment::new(
            std::iter::once(Pair::End(identifier("REQUIRED_MODULE", vec![]))).collect(),
        )
        .with_equal_token(Some(TokenReference::symbol(" = ").unwrap()))
        .with_expressions(last.returns().clone()),
    );
    let mut stmts = vec![(local, None)];
    for declaration in forward_all(&declarations) {
        stmts.push((
            Stmt::ExportedTypeDeclaration(declaration),
            Some(TokenReference::new(vec![], newline(), vec![])),
        ));
    }
    let nodes = link.nodes().clone().with_stmts(stmts).with_last_stmt(Some((
        LastStmt::Return(Return::new().with_returns(
            std::iter::once(Pair::End(Expression::Symbol(identifier(
                "REQUIRED_MODULE",
                vec![newline()],
            ))))
            .collect(),
        )),
        None,
    )));
    Some(link.with_nodes(nodes).to_string())
}

const MODULES: [&str; 12] = [
    "",
    "return {}\n",
    "export type Action = string\n",
    "export type Action = string",
    "export type Value<T, S = T> = Types.Value<T, S>\n",
    "export type Value<T, S = Object> = Types.Value<T, S>\nexport type Object = {}\n",
    "export type Object = {}\nexport type Value<T, S = Object> = Types.Value<T, S>\n",
    "--!strict\nlocal Types = require(script.Types)\n\n-- A pair.\nexport type Pair<K, V... = ...any> = { key: K } -- trailing\n\nexport   type   Spaced  <  A  ,  B  =  number  >  =  A\nreturn {}\n",
    "export type Flag<T = true, U = false, V = nil, W = \"text\", X = { number }> = T\n",
    "export type F<T... = (number, string)> = (T...) -> ()\nexport type G<A = F<number>> = A\n",
    "export type Value --[[ why ]] <T --[[ the item ]] = --[[ here ]] string> = T\n",
    "type Hidden = number\nexport type Shown<T = Hidden, U = Shown> = T\nexport type Later = Shown<number>\n",
];

const LINKS: [&str; 5] = [
    "return require(script.Parent._Index.acme_lib.lib)\n",
    "return require(script.Parent._Index[\"acme_lib\"][\"lib\"])",
    "-- generated\nlocal unused = 1\nreturn require(game.Packages.Lib) -- the module\n-- the end\n",
    "return   require ( script.Parent.Lib ) ;\n",
    "return require(script.Parent.Lib), 2\n",
];

#[test]
fn declarations_are_read_as_full_moon_prints_them() {
    for module in MODULES {
        let tree = full_moon::parse(module).unwrap();
        let expected: Vec<String> = exported(&tree).iter().map(|d| d.to_string()).collect();
        let read: Vec<String> =
            type_declarations_from_source(&parse(module)).unwrap().iter().map(|d| d.to_string()).collect();
        assert_eq!(read, expected, "{:?}", module);
    }
}

#[test]
fn names_are_read_as_full_moon_gives_them() {
    for module in MODULES {
        let tree = full_moon::parse(module).unwrap();
        let expected: Vec<String> = exported(&tree)
            .iter()
            .map(|d| d.type_declaration().tokens_of_name().token().to_string())
            .collect();
        let read: Vec<String> =
            type_declarations_from_source(&parse(module)).unwrap().into_iter().map(|d| d.name).collect();
        assert_eq!(read, expected, "{:?}", module);
    }
}

#[test]
fn forwarded_declarations_are_what_full_moon_prints_for_the_rebuilt_tree() {
    for module in MODULES {
        let tree = full_moon::parse(module).unwrap();
        let expected: Vec<String> =
            forward_all(&exported(&tree)).iter().map(|d| d.to_string()).collect();
        let forwarded: Vec<String> =
            re_export_type_declarations(type_declarations_from_source(&parse(module)).unwrap())
                .iter()
                .map(|d| d.to_string())
                .collect();
        assert_eq!(forwarded, expected, "{:?}", module);
    }
}

#[test]
fn rewritten_links_are_what_full_moon_prints_for_the_rebuilt_tree() {
    for link in LINKS {
        for module in MODULES {
            let expected = match rewritten(link, module) {
                Some(text) => MutateLinkResult::Changed(text),
                None => MutateLinkResult::Unchanged,
            };
            let parsed = parse_link(parse(link)).unwrap();
            assert_eq!(mutate_link(&parsed, &parse(module)), Ok(expected), "{:?} {:?}", link, module);
        }
    }
}
