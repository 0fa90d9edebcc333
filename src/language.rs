use tree_sitter::{Language, LanguageError, Parser, Tree};
use vstd::prelude::*;

verus! {
#[verifier::external_type_specification]
#[verifier::external_body]
pub struct ExLanguage(Language);

#[verifier::external_type_specification]
#[verifier::external_body]
pub struct ExParser(Parser);

/// Relies on tree_sitter::Parser::new: a parser with no grammar yet.
pub assume_specification[ Parser::new ]() -> Parser;

#[verifier::external_type_specification]
#[verifier::external_body]
pub struct ExLanguageError(LanguageError);

/// The grammars that a session can select: one for each grammar crate that
/// this library depends on. C#, Objective-C, Kotlin, Haskell, Swift, OCaml,
/// Scala and SQL have no grammar crate among its dependencies and are not in
/// the catalog.
#[derive(Debug, Clone, Copy, PartialEq, Eq, Structural)]
pub enum TSLang {
    ASM,
    CPP,
    C,
    Java,
    Rust,
    Zig,
    Gleam,
    Odin,
    GLSL,
    HLSL,
    JS,
    TS,
    TSX,
    PHP,
    PHPO,
    Go,
    Ruby,
    Python,
    Lua,
    Clojure,
    R,
    Elixir,
    Toml,
    CMake,
    Nix,
    Regex,
    Yaml,
    Json,
    CSS,
    HTML,
    MD,
}

/// The number of grammars in the catalog.
pub const LANGUAGE_COUNT: usize = 31;

/// The position of a tag in the catalog.
pub open spec fn catalog_index(tag: TSLang) -> int {
    match tag {
        TSLang::ASM => 0,
        TSLang::CPP => 1,
        TSLang::C => 2,
        TSLang::Java => 3,
        TSLang::Rust => 4,
        TSLang::Zig => 5,
        TSLang::Gleam => 6,
        TSLang::Odin => 7,
        TSLang::GLSL => 8,
        TSLang::HLSL => 9,
        TSLang::JS => 10,
        TSLang::TS => 11,
        TSLang::TSX => 12,
        TSLang::PHP => 13,
        TSLang::PHPO => 14,
        TSLang::Go => 15,
        TSLang::Ruby => 16,
        TSLang::Python => 17,
        TSLang::Lua => 18,
        TSLang::Clojure => 19,
        TSLang::R => 20,
        TSLang::Elixir => 21,
        TSLang::Toml => 22,
        TSLang::CMake => 23,
        TSLang::Nix => 24,
        TSLang::Regex => 25,
        TSLang::Yaml => 26,
        TSLang::Json => 27,
        TSLang::CSS => 28,
        TSLang::HTML => 29,
        TSLang::MD => 30,
    }
}

impl TSLang {
    /// Every tag of the catalog, each once, in catalog order.
    pub fn all() -> (r: Vec<TSLang>)
        ensures
            r@.len() == LANGUAGE_COUNT,
            forall|i: int| 0 <= i < r@.len() ==> catalog_index(#[trigger] r@[i]) == i,
    {
        let mut r: Vec<TSLang> = Vec::new();
        r.push(TSLang::ASM);
        r.push(TSLang::CPP);
        r.push(TSLang::C);
        r.push(TSLang::Java);
        r.push(TSLang::Rust);
        r.push(TSLang::Zig);
        r.push(TSLang::Gleam);
        r.push(TSLang::Odin);
        r.push(TSLang::GLSL);
        r.push(TSLang::HLSL);
        r.push(TSLang::JS);
        r.push(TSLang::TS);
        r.push(TSLang::TSX);
        r.push(TSLang::PHP);
        r.push(TSLang::PHPO);
        r.push(TSLang::Go);
        r.push(TSLang::Ruby);
        r.push(TSLang::Python);
        r.push(TSLang::Lua);
        r.push(TSLang::Clojure);
        r.push(TSLang::R);
        r.push(TSLang::Elixir);
        r.push(TSLang::Toml);
        r.push(TSLang::CMake);
        r.push(TSLang::Nix);
        r.push(TSLang::Regex);
        r.push(TSLang::Yaml);
        r.push(TSLang::Json);
        r.push(TSLang::CSS);
        r.push(TSLang::HTML);
        r.push(TSLang::MD);
        r
    }

    /// The grammar of this tag.
    pub fn grammar(self) -> (r: Grammar)
        ensures
            r.tag() == self,
    {
        let language = match self {
            TSLang::ASM => asm_language(),
            TSLang::CPP => cpp_language(),
            TSLang::C => c_language(),
            TSLang::Java => java_language(),
            TSLang::Rust => rust_language(),
            TSLang::Zig => zig_language(),
            TSLang::Gleam => gleam_language(),
            TSLang::Odin => odin_language(),
            TSLang::GLSL => glsl_language(),
            TSLang::HLSL => hlsl_language(),
            TSLang::JS => js_language(),
            TSLang::TS => ts_language(),
            TSLang::TSX => tsx_language(),
            TSLang::PHP => php_language(),
            TSLang::PHPO => phpo_language(),
            TSLang::Go => go_language(),
            TSLang::Ruby => ruby_language(),
            TSLang::Python => python_language(),
            TSLang::Lua => lua_language(),
            TSLang::Clojure => clojure_language(),
            TSLang::R => r_language(),
            TSLang::Elixir => elixir_language(),
            TSLang::Toml => toml_language(),
            TSLang::CMake => cmake_language(),
            TSLang::Nix => nix_language(),
            TSLang::Regex => regex_language(),
            TSLang::Yaml => yaml_language(),
            TSLang::Json => json_language(),
            TSLang::CSS => css_language(),
            TSLang::HTML => html_language(),
            TSLang::MD => md_language(),
        };
        Grammar { tag: self, language }
    }
}

/// A grammar of the catalog together with its tag. Only `TSLang::grammar`
/// builds one, so the grammar is always the one that the tag names.
pub struct Grammar {
    tag: TSLang,
    language: Language,
}

impl Grammar {
    /// The tag whose grammar this is.
    pub closed spec fn tag(&self) -> TSLang {
        self.tag
    }
}

/// The number of node kinds of a tag's grammar.
pub uninterp spec fn kind_count_of(tag: TSLang) -> usize;

/// The name of a node kind of a tag's grammar, if the id has one.
pub uninterp spec fn kind_name_of(tag: TSLang, id: u16) -> Option<Seq<char>>;

/// Relies on tree_sitter::Language::node_kind_count: the grammar's symbol and
/// alias count, which is at least one in every grammar of the catalog.
#[verifier::external_body]
pub(crate) fn kind_count(grammar: &Grammar) -> (r: usize)
    ensures
        r == kind_count_of(grammar.tag()),
        r >= 1,
{
    grammar.language.node_kind_count()
}

/// Relies on tree_sitter::Language::node_kind_for_id: the name of a node kind,
/// if the id has one. The catalog's grammars name their kinds in UTF-8, which
/// the call expects.
#[verifier::external_body]
pub(crate) fn kind_name(grammar: &Grammar, id: u16) -> (r: Option<&'static str>)
    ensures
        match r {
            Some(name) => kind_name_of(grammar.tag(), id) == Some(name@),
            None => kind_name_of(grammar.tag(), id) is None,
        },
{
    grammar.language.node_kind_for_id(id)
}

/// Relies on tree_sitter::Parser::set_language: it installs any grammar of
/// ABI version 13 to 15, and every grammar of the catalog has one of those.
#[verifier::external_body]
fn install(parser: &mut Parser, grammar: &Grammar) -> (r: Result<(), LanguageError>)
    ensures
        r is Ok,
{
    parser.set_language(&grammar.language)
}

/// A parser together with the grammar installed in it, if any. Only
/// `select` installs one.
pub struct GrammarParser {
    parser: Parser,
    installed: Option<Grammar>,
}

impl GrammarParser {
    /// The tag of the installed grammar, if any.
    pub closed spec fn installed_tag(&self) -> Option<TSLang> {
        match self.installed {
            Some(grammar) => Some(grammar.tag()),
            None => None,
        }
    }

    /// A parser with no grammar installed.
    pub fn new() -> (r: Self)
        ensures
            r.installed_tag() is None,
    {
        GrammarParser { parser: Parser::new(), installed: None }
    }

    /// Installs a grammar of the catalog, replacing the earlier one.
    pub fn select(&mut self, grammar: Grammar) -> (r: Result<(), LanguageError>)
        ensures
            r is Ok,
            final(self).installed_tag() == Some(grammar.tag()),
    {
        match install(&mut self.parser, &grammar) {
            Ok(()) => {
                self.installed = Some(grammar);
                Ok(())
            },
            Err(e) => Err(e),
        }
    }

    /// The installed grammar, if any.
    pub fn installed(&self) -> (r: Option<&Grammar>)
        ensures
            match r {
                Some(grammar) => self.installed_tag() == Some(grammar.tag()),
                None => self.installed_tag() is None,
            },
    {
        match &self.installed {
            Some(grammar) => Some(grammar),
            None => None,
        }
    }
}

/// Relies on tree_sitter::Parser::parse: it gives a tree whenever a grammar is
/// installed, since no timeout or cancellation flag is ever set here. A kept
/// tree, edited to match the new text, serves as a hint.
#[verifier::external_body]
pub(crate) fn parse_bytes(
    parser: &mut GrammarParser,
    text: &Vec<u8>,
    previous: Option<&Tree>,
) -> (r: Option<Tree>)
    ensures
        old(parser).installed_tag() is Some ==> r is Some,
        final(parser).installed_tag() == old(parser).installed_tag(),
{
    parser.parser.parse(text, previous)
}

/// Relies on the Display impl of tree_sitter::LanguageError: its message.
#[verifier::external_body]
pub(crate) fn language_error_message(error: &LanguageError) -> String {
    error.to_string()
}

/// Relies on tree_sitter_asm::LANGUAGE: the assembly grammar.
#[verifier::external_body]
fn asm_language() -> Language {
    tree_sitter_asm::LANGUAGE.into()
}

/// Relies on tree_sitter_cpp::LANGUAGE: the C++ grammar.
#[verifier::external_body]
fn cpp_language() -> Language {
    tree_sitter_cpp::LANGUAGE.into()
}

/// Relies on tree_sitter_c::LANGUAGE: the C grammar.
#[verifier::external_body]
fn c_language() -> Language {
    tree_sitter_c::LANGUAGE.into()
}

/// Relies on tree_sitter_java::LANGUAGE: the Java grammar.
#[verifier::external_body]
fn java_language() -> Language {
    tree_sitter_java::LANGUAGE.into()
}

/// Relies on tree_sitter_rust::LANGUAGE: the Rust grammar.
#[verifier::external_body]
fn rust_language() -> Language {
    tree_sitter_rust::LANGUAGE.into()
}

/// Relies on tree_sitter_zig::LANGUAGE: the Zig grammar.
#[verifier::external_body]
fn zig_language() -> Language {
    tree_sitter_zig::LANGUAGE.into()
}

/// Relies on tree_sitter_gleam::LANGUAGE: the Gleam grammar.
#[verifier::external_body]
fn gleam_language() -> Language {
    tree_sitter_gleam::LANGUAGE.into()
}

/// Relies on tree_sitter_odin::LANGUAGE: the Odin grammar.
#[verifier::external_body]
fn odin_language() -> Language {
    tree_sitter_odin::LANGUAGE.into()
}

/// Relies on tree_sitter_glsl::LANGUAGE_GLSL: the GLSL grammar.
#[verifier::external_body]
fn glsl_language() -> Language {
    tree_sitter_glsl::LANGUAGE_GLSL.into()
}

/// Relies on tree_sitter_hlsl::LANGUAGE_HLSL: the HLSL grammar.
#[verifier::external_body]
fn hlsl_language() -> Language {
    tree_sitter_hlsl::LANGUAGE_HLSL.into()
}

/// Relies on tree_sitter_javascript::LANGUAGE: the JavaScript grammar.
#[verifier::external_body]
fn js_language() -> Language {
    tree_sitter_javascript::LANGUAGE.into()
}

/// Relies on tree_sitter_typescript::LANGUAGE_TYPESCRIPT: the TypeScript grammar.
#[verifier::external_body]
fn ts_language() -> Language {
    tree_sitter_typescript::LANGUAGE_TYPESCRIPT.into()
}

/// Relies on tree_sitter_typescript::LANGUAGE_TSX: the TSX grammar.
#[verifier::external_body]
fn tsx_language() -> Language {
    tree_sitter_typescript::LANGUAGE_TSX.into()
}

/// Relies on tree_sitter_php::LANGUAGE_PHP: the PHP with embedded HTML grammar.
#[verifier::external_body]
fn php_language() -> Language {
    tree_sitter_php::LANGUAGE_PHP.into()
}

/// Relies on tree_sitter_php::LANGUAGE_PHP_ONLY: the PHP-only grammar.
#[verifier::external_body]
fn phpo_language() -> Language {
    tree_sitter_php::LANGUAGE_PHP_ONLY.into()
}

/// Relies on tree_sitter_go::LANGUAGE: the Go grammar.
#[verifier::external_body]
fn go_language() -> Language {
    tree_sitter_go::LANGUAGE.into()
}

/// Relies on tree_sitter_ruby::LANGUAGE: the Ruby grammar.
#[verifier::external_body]
fn ruby_language() -> Language {
    tree_sitter_ruby::LANGUAGE.into()
}

/// Relies on tree_sitter_python::LANGUAGE: the Python grammar.
#[verifier::external_body]
fn python_language() -> Language {
    tree_sitter_python::LANGUAGE.into()
}

/// Relies on tree_sitter_lua::LANGUAGE: the Lua grammar.
#[verifier::external_body]
fn lua_language() -> Language {
    tree_sitter_lua::LANGUAGE.into()
}

/// Relies on tree_sitter_clojure::LANGUAGE: the Clojure grammar.
#[verifier::external_body]
fn clojure_language() -> Language {
    tree_sitter_clojure::LANGUAGE.into()
}

/// Relies on tree_sitter_r::LANGUAGE: the R grammar.
#[verifier::external_body]
fn r_language() -> Language {
    tree_sitter_r::LANGUAGE.into()
}

/// Relies on tree_sitter_elixir::LANGUAGE: the Elixir grammar.
#[verifier::external_body]
fn elixir_language() -> Language {
    tree_sitter_elixir::LANGUAGE.into()
}

/// Relies on tree_sitter_toml_ng::LANGUAGE: the TOML grammar.
#[verifier::external_body]
fn toml_language() -> Language {
    tree_sitter_toml_ng::LANGUAGE.into()
}

/// Relies on tree_sitter_cmake::LANGUAGE: the CMake grammar.
#[verifier::external_body]
fn cmake_language() -> Language {
    tree_sitter_cmake::LANGUAGE.into()
}

/// Relies on tree_sitter_nix::LANGUAGE: the Nix grammar.
#[verifier::external_body]
fn nix_language() -> Language {
    tree_sitter_nix::LANGUAGE.into()
}

/// Relies on tree_sitter_regex::LANGUAGE: the regular-expression grammar.
#[verifier::external_body]
fn regex_language() -> Language {
    tree_sitter_regex::LANGUAGE.into()
}

/// Relies on tree_sitter_yaml::LANGUAGE: the YAML grammar.
#[verifier::external_body]
fn yaml_language() -> Language {
    tree_sitter_yaml::LANGUAGE.into()
}

/// Relies on tree_sitter_json::LANGUAGE: the JSON grammar.
#[verifier::external_body]
fn json_language() -> Language {
    tree_sitter_json::LANGUAGE.into()
}

/// Relies on tree_sitter_css::LANGUAGE: the CSS grammar.
#[verifier::external_body]
fn css_language() -> Language {
    tree_sitter_css::LANGUAGE.into()
}

/// Relies on tree_sitter_html::LANGUAGE: the HTML grammar.
#[verifier::external_body]
fn html_language() -> Language {
    tree_sitter_html::LANGUAGE.into()
}

/// Relies on tree_sitter_md::LANGUAGE: the Markdown block grammar.
#[verifier::external_body]
fn md_language() -> Language {
    tree_sitter_md::LANGUAGE.into()
}

} // verus!
