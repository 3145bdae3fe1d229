//! Formatting the generated module with StyLua.
use vstd::prelude::*;
use crate::ast::Program;
use crate::program::{eval, eval_lua, program_ok};

verus! {

/// The indentation width the generated module is formatted with.
pub const INDENT_WIDTH: usize = 2;

/// The line width the generated module is formatted to.
pub const COLUMN_WIDTH: usize = 120;

/// The name of what `stylua_lib::format_code` answers for `code` when it
/// indents with spaces, `indent_width` of them a level, aims at lines of
/// `column_width` columns and leaves every other setting at its default:
/// the formatted code, or the text of the error it reports.
pub uninterp spec fn stylua_format(code: Seq<char>, indent_width: nat, column_width: nat) -> Result<
    Seq<char>,
    Seq<char>,
>;

/// Calls `stylua_lib::format_code` with space indentation of `indent_width`,
/// a column width of `column_width`, no range and no output verification.
/// The contract claims only that the answer, with an error turned into its
/// message, is what `stylua_format` names for these arguments.
#[verifier::external_body]
fn format_lua(code: &str, indent_width: usize, column_width: usize) -> (r: Result<String, String>)
    ensures
        match r {
            Ok(s) => stylua_format(code@, indent_width as nat, column_width as nat) == Ok::<
                Seq<char>,
                Seq<char>,
            >(s@),
            Err(e) => stylua_format(code@, indent_width as nat, column_width as nat) == Err::<
                Seq<char>,
                Seq<char>,
            >(e@),
        },
{
    let mut config = stylua_lib::Config::new();
    config.indent_type = stylua_lib::IndentType::Spaces;
    config.indent_width = indent_width;
    config.column_width = column_width;
    match stylua_lib::format_code(code, config, None, stylua_lib::OutputVerification::None) {
        Ok(formatted) => Ok(formatted),
        Err(err) => Err(err.to_string()),
    }
}

/// What is handed back for the module `lua` once the formatter has
/// answered `formatted`: the formatted code, or, where formatting failed,
/// the unformatted module followed by a blank line and the error.
pub open spec fn formatted_or_raw(lua: Seq<char>, formatted: Result<Seq<char>, Seq<char>>) -> Seq<
    char,
> {
    match formatted {
        Ok(s) => s,
        Err(e) => lua + "\n\n"@ + e,
    }
}

/// Chooses between the formatter's answer and the unformatted module.
pub fn finish_formatting(lua: String, formatted: Result<String, String>) -> (r: String)
    ensures
        r@ == formatted_or_raw(
            lua@,
            match formatted {
                Ok(s) => Ok(s@),
                Err(e) => Err(e@),
            },
        ),
{
    match formatted {
        Ok(s) => s,
        Err(e) => {
            let mut out = lua;
            out.append("\n\n");
            out.append(e.as_str());
            out
        },
    }
}

/// Formats a Lua module as the generator hands it out.
pub fn format_module(lua: String) -> (r: String)
    ensures
        r@ == formatted_or_raw(
            lua@,
            stylua_format(lua@, INDENT_WIDTH as nat, COLUMN_WIDTH as nat),
        ),
{
    let formatted = format_lua(lua.as_str(), INDENT_WIDTH, COLUMN_WIDTH);
    finish_formatting(lua, formatted)
}

/// The formatted Lua module of a program.
pub fn generate(program: Program, is_test: bool) -> (r: String)
    requires
        program_ok(program, is_test),
    ensures
        r@ == formatted_or_raw(
            eval_lua(program, is_test),
            stylua_format(eval_lua(program, is_test), INDENT_WIDTH as nat, COLUMN_WIDTH as nat),
        ),
{
    let lua = eval(program, is_test);
    format_module(lua)
}

} // verus!
