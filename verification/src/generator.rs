//! The `Generate` interface: every node of the syntax tree turns into Lua
//! text, given the generator's state.
use vstd::prelude::*;
use crate::ast::{
    ArrayLiteral, AssignStatement, AugroupCommand, AutocmdCommand, Body, BreakCommand, DeclCommand,
    DefCommand, DictAccess, DictLiteral, EchoCommand, ElseCommand, ElseIfCommand, ExCommand,
    Expandable, ExportCommand, Expression, ForCommand, GroupedExpression, Heredoc, Identifier,
    IfCommand, ImportCommand, IndexExpression, InfixExpression, Lambda, Literal, MutationStatement,
    PrefixExpression, RawIdentifier, Register, ReturnCommand, ScopedIdentifier, SharedCommand,
    StatementCommand, Ternary, TryCommand, UserCommand, VarCommand, Vim9ScriptCommand, VimBoolean,
    VimKey, VimNumber, VimOption, VimString, WhileCommand,
};
use crate::cmd::{
    assign_left_ok, assign_lua, augroup_lua, autocmd_lua, body_ok, body_text, cmd_lua, cmd_ok, def_lua, else_lua,
    elseif_lua, export_lua, for_lua, heredoc_lua, if_lua, import_lua, import_ok, mutation_lua,
    user_command_lua, var_lua, while_lua,
};
use crate::expr::{
    expr_lua, expr_ok, gen_array, gen_boolean, gen_dict, gen_dict_access, gen_expandable, gen_expr,
    gen_grouped, gen_ident, gen_index, gen_infix, gen_key, gen_lambda, gen_literal, gen_number,
    gen_prefix, gen_raw_ident, gen_register, gen_scoped_ident, gen_string, gen_ternary,
    gen_vim_option, ident_lua, ident_ok,
};
use crate::generate::{
    gen_assign, gen_augroup, gen_autocmd, gen_body, gen_break, gen_cmd, gen_decl, gen_def,
    gen_echo, gen_else, gen_elseif, gen_export, gen_for, gen_heredoc, gen_if, gen_import,
    gen_mutation, gen_return, gen_shared, gen_statement, gen_try, gen_user_command, gen_var,
    gen_vim9script, gen_while,
};
use crate::text::trim;
use crate::state::{State, StateView};

verus! {

/// A node that the generator turns into Lua text.
pub trait Generate {
    /// Whether the generator can translate the node in state `st`.
    spec fn can_generate(&self, st: StateView) -> bool;

    /// The node's Lua text in state `st`, and the autocommand group current after it.
    spec fn generated(&self, st: StateView) -> (Seq<char>, Option<Seq<char>>);

    /// The node's Lua text. Of the state only the current autocommand group
    /// may change.
    fn gen(&self, state: &mut State) -> (out: String)
        requires
            self.can_generate(old(state)@),
        ensures
            out@ == self.generated(old(state)@).0,
            final(state)@ == old(state)@.with_augroup(self.generated(old(state)@).1),
    ;
}

impl Generate for ExCommand {
    open spec fn can_generate(&self, st: StateView) -> bool {
        cmd_ok(*self, st.command_depth, st.is_test)
    }

    open spec fn generated(&self, st: StateView) -> (Seq<char>, Option<Seq<char>>) {
        cmd_lua(*self, st)
    }

    fn gen(&self, state: &mut State) -> (out: String) {
        gen_cmd(self, state)
    }
}

impl Generate for Expression {
    open spec fn can_generate(&self, st: StateView) -> bool {
        expr_ok(*self)
    }

    open spec fn generated(&self, st: StateView) -> (Seq<char>, Option<Seq<char>>) {
        (expr_lua(*self, st.command_depth), st.augroup)
    }

    fn gen(&self, state: &mut State) -> (out: String) {
        gen_expr(self, state.command_depth)
    }
}

impl Generate for Body {
    open spec fn can_generate(&self, st: StateView) -> bool {
        body_ok(self.commands@, st.command_depth, st.is_test)
    }

    open spec fn generated(&self, st: StateView) -> (Seq<char>, Option<Seq<char>>) {
        body_text(self.commands@, st)
    }

    fn gen(&self, state: &mut State) -> (out: String) {
        gen_body(self, state)
    }
}

impl Generate for IfCommand {
    open spec fn can_generate(&self, st: StateView) -> bool {
        cmd_ok(ExCommand::If(*self), st.command_depth, st.is_test)
    }

    open spec fn generated(&self, st: StateView) -> (Seq<char>, Option<Seq<char>>) {
        if_lua(*self, st)
    }

    fn gen(&self, state: &mut State) -> (out: String) {
        gen_if(self, state)
    }
}

impl Generate for ElseIfCommand {
    open spec fn can_generate(&self, st: StateView) -> bool {
        expr_ok(self.condition) && body_ok(self.body.commands@, st.command_depth, st.is_test)
    }

    open spec fn generated(&self, st: StateView) -> (Seq<char>, Option<Seq<char>>) {
        elseif_lua(*self, st)
    }

    fn gen(&self, state: &mut State) -> (out: String) {
        gen_elseif(self, state)
    }
}

impl Generate for ElseCommand {
    open spec fn can_generate(&self, st: StateView) -> bool {
        body_ok(self.body.commands@, st.command_depth, st.is_test)
    }

    open spec fn generated(&self, st: StateView) -> (Seq<char>, Option<Seq<char>>) {
        else_lua(*self, st)
    }

    fn gen(&self, state: &mut State) -> (out: String) {
        gen_else(self, state)
    }
}

impl Generate for DefCommand {
    open spec fn can_generate(&self, st: StateView) -> bool {
        cmd_ok(ExCommand::Def(*self), st.command_depth, st.is_test)
    }

    open spec fn generated(&self, st: StateView) -> (Seq<char>, Option<Seq<char>>) {
        def_lua(*self, st)
    }

    fn gen(&self, state: &mut State) -> (out: String) {
        gen_def(self, state)
    }
}

impl Generate for AugroupCommand {
    open spec fn can_generate(&self, st: StateView) -> bool {
        cmd_ok(ExCommand::Augroup(*self), st.command_depth, st.is_test)
    }

    open spec fn generated(&self, st: StateView) -> (Seq<char>, Option<Seq<char>>) {
        augroup_lua(*self, st)
    }

    fn gen(&self, state: &mut State) -> (out: String) {
        gen_augroup(self, state)
    }
}

impl Generate for AutocmdCommand {
    open spec fn can_generate(&self, st: StateView) -> bool {
        cmd_ok(ExCommand::Autocmd(*self), st.command_depth, st.is_test)
    }

    open spec fn generated(&self, st: StateView) -> (Seq<char>, Option<Seq<char>>) {
        autocmd_lua(*self, st)
    }

    fn gen(&self, state: &mut State) -> (out: String) {
        gen_autocmd(self, state)
    }
}

impl Generate for UserCommand {
    open spec fn can_generate(&self, st: StateView) -> bool {
        cmd_ok(ExCommand::UserCommand(*self), st.command_depth, st.is_test)
    }

    open spec fn generated(&self, st: StateView) -> (Seq<char>, Option<Seq<char>>) {
        user_command_lua(*self, st)
    }

    fn gen(&self, state: &mut State) -> (out: String) {
        gen_user_command(self, state)
    }
}

impl Generate for ExportCommand {
    open spec fn can_generate(&self, st: StateView) -> bool {
        cmd_ok(ExCommand::ExportCommand(*self), st.command_depth, st.is_test)
    }

    open spec fn generated(&self, st: StateView) -> (Seq<char>, Option<Seq<char>>) {
        export_lua(*self, st)
    }

    fn gen(&self, state: &mut State) -> (out: String) {
        gen_export(self, state)
    }
}

impl Generate for ForCommand {
    open spec fn can_generate(&self, st: StateView) -> bool {
        cmd_ok(ExCommand::For(*self), st.command_depth, st.is_test)
    }

    open spec fn generated(&self, st: StateView) -> (Seq<char>, Option<Seq<char>>) {
        for_lua(*self, st)
    }

    fn gen(&self, state: &mut State) -> (out: String) {
        gen_for(self, state)
    }
}

impl Generate for WhileCommand {
    open spec fn can_generate(&self, st: StateView) -> bool {
        cmd_ok(ExCommand::While(*self), st.command_depth, st.is_test)
    }

    open spec fn generated(&self, st: StateView) -> (Seq<char>, Option<Seq<char>>) {
        while_lua(*self, st)
    }

    fn gen(&self, state: &mut State) -> (out: String) {
        gen_while(self, state)
    }
}

impl Generate for TryCommand {
    open spec fn can_generate(&self, st: StateView) -> bool {
        body_ok(self.body.commands@, st.command_depth, st.is_test)
    }

    open spec fn generated(&self, st: StateView) -> (Seq<char>, Option<Seq<char>>) {
        body_text(self.body.commands@, st)
    }

    fn gen(&self, state: &mut State) -> (out: String) {
        gen_try(self, state)
    }
}

impl Generate for Vim9ScriptCommand {
    open spec fn can_generate(&self, st: StateView) -> bool {
        true
    }

    open spec fn generated(&self, st: StateView) -> (Seq<char>, Option<Seq<char>>) {
        ("-- vim9script"@, st.augroup)
    }

    fn gen(&self, state: &mut State) -> (out: String) {
        gen_vim9script(self)
    }
}

impl Generate for VarCommand {
    open spec fn can_generate(&self, st: StateView) -> bool {
        ident_ok(self.name) && expr_ok(self.expr)
    }

    open spec fn generated(&self, st: StateView) -> (Seq<char>, Option<Seq<char>>) {
        (var_lua(*self, st.command_depth), st.augroup)
    }

    fn gen(&self, state: &mut State) -> (out: String) {
        gen_var(self, state.command_depth)
    }
}

impl Generate for EchoCommand {
    open spec fn can_generate(&self, st: StateView) -> bool {
        expr_ok(self.expr)
    }

    open spec fn generated(&self, st: StateView) -> (Seq<char>, Option<Seq<char>>) {
        ("print("@ + expr_lua(self.expr, st.command_depth) + ")"@, st.augroup)
    }

    fn gen(&self, state: &mut State) -> (out: String) {
        gen_echo(self, state.command_depth)
    }
}

impl Generate for StatementCommand {
    open spec fn can_generate(&self, st: StateView) -> bool {
        match *self {
            StatementCommand::Assign(a) => assign_left_ok(a.left) && expr_ok(a.right),
            StatementCommand::Mutate(m) => expr_ok(m.left) && expr_ok(m.right),
        }
    }

    open spec fn generated(&self, st: StateView) -> (Seq<char>, Option<Seq<char>>) {
        (match *self {
            StatementCommand::Assign(a) => assign_lua(a, st.command_depth),
            StatementCommand::Mutate(m) => mutation_lua(m, st.command_depth),
        }, st.augroup)
    }

    fn gen(&self, state: &mut State) -> (out: String) {
        gen_statement(self, state.command_depth)
    }
}

impl Generate for AssignStatement {
    open spec fn can_generate(&self, st: StateView) -> bool {
        assign_left_ok(self.left) && expr_ok(self.right)
    }

    open spec fn generated(&self, st: StateView) -> (Seq<char>, Option<Seq<char>>) {
        (assign_lua(*self, st.command_depth), st.augroup)
    }

    fn gen(&self, state: &mut State) -> (out: String) {
        gen_assign(self, state.command_depth)
    }
}

impl Generate for MutationStatement {
    open spec fn can_generate(&self, st: StateView) -> bool {
        expr_ok(self.left) && expr_ok(self.right)
    }

    open spec fn generated(&self, st: StateView) -> (Seq<char>, Option<Seq<char>>) {
        (mutation_lua(*self, st.command_depth), st.augroup)
    }

    fn gen(&self, state: &mut State) -> (out: String) {
        gen_mutation(self, state.command_depth)
    }
}

impl Generate for ReturnCommand {
    open spec fn can_generate(&self, st: StateView) -> bool {
        self.expr matches Some(e) ==> expr_ok(e)
    }

    open spec fn generated(&self, st: StateView) -> (Seq<char>, Option<Seq<char>>) {
        (match self.expr {
            Some(e) => "return "@ + expr_lua(e, st.command_depth),
            None => "return"@,
        }, st.augroup)
    }

    fn gen(&self, state: &mut State) -> (out: String) {
        gen_return(self, state.command_depth)
    }
}

impl Generate for DeclCommand {
    open spec fn can_generate(&self, st: StateView) -> bool {
        ident_ok(self.name)
    }

    open spec fn generated(&self, st: StateView) -> (Seq<char>, Option<Seq<char>>) {
        ("local "@ + ident_lua(self.name) + " = nil"@, st.augroup)
    }

    fn gen(&self, state: &mut State) -> (out: String) {
        gen_decl(self)
    }
}

impl Generate for Heredoc {
    open spec fn can_generate(&self, st: StateView) -> bool {
        ident_ok(self.name)
    }

    open spec fn generated(&self, st: StateView) -> (Seq<char>, Option<Seq<char>>) {
        (heredoc_lua(*self), st.augroup)
    }

    fn gen(&self, state: &mut State) -> (out: String) {
        gen_heredoc(self)
    }
}

impl Generate for SharedCommand {
    open spec fn can_generate(&self, st: StateView) -> bool {
        true
    }

    open spec fn generated(&self, st: StateView) -> (Seq<char>, Option<Seq<char>>) {
        ("vim.cmd [[ "@ + trim(self.contents@) + " ]]"@, st.augroup)
    }

    fn gen(&self, state: &mut State) -> (out: String) {
        gen_shared(self)
    }
}

impl Generate for ImportCommand {
    open spec fn can_generate(&self, st: StateView) -> bool {
        import_ok(*self)
    }

    open spec fn generated(&self, st: StateView) -> (Seq<char>, Option<Seq<char>>) {
        (import_lua(*self), st.augroup)
    }

    fn gen(&self, state: &mut State) -> (out: String) {
        gen_import(self)
    }
}

impl Generate for BreakCommand {
    open spec fn can_generate(&self, st: StateView) -> bool {
        true
    }

    open spec fn generated(&self, st: StateView) -> (Seq<char>, Option<Seq<char>>) {
        ("break"@, st.augroup)
    }

    fn gen(&self, state: &mut State) -> (out: String) {
        gen_break(self)
    }
}

impl Generate for Identifier {
    open spec fn can_generate(&self, st: StateView) -> bool {
        ident_ok(*self)
    }

    open spec fn generated(&self, st: StateView) -> (Seq<char>, Option<Seq<char>>) {
        (ident_lua(*self), st.augroup)
    }

    fn gen(&self, state: &mut State) -> (out: String) {
        gen_ident(self)
    }
}

impl Generate for ScopedIdentifier {
    open spec fn can_generate(&self, st: StateView) -> bool {
        ident_ok(Identifier::Scope(*self))
    }

    open spec fn generated(&self, st: StateView) -> (Seq<char>, Option<Seq<char>>) {
        (ident_lua(Identifier::Scope(*self)), st.augroup)
    }

    fn gen(&self, state: &mut State) -> (out: String) {
        gen_scoped_ident(self)
    }
}

impl Generate for RawIdentifier {
    open spec fn can_generate(&self, st: StateView) -> bool {
        true
    }

    open spec fn generated(&self, st: StateView) -> (Seq<char>, Option<Seq<char>>) {
        (self.name@, st.augroup)
    }

    fn gen(&self, state: &mut State) -> (out: String) {
        gen_raw_ident(self)
    }
}

impl Generate for Literal {
    open spec fn can_generate(&self, st: StateView) -> bool {
        true
    }

    open spec fn generated(&self, st: StateView) -> (Seq<char>, Option<Seq<char>>) {
        (self.text@, st.augroup)
    }

    fn gen(&self, state: &mut State) -> (out: String) {
        gen_literal(self)
    }
}

impl Generate for VimKey {
    open spec fn can_generate(&self, st: StateView) -> bool {
        true
    }

    open spec fn generated(&self, st: StateView) -> (Seq<char>, Option<Seq<char>>) {
        (match *self {
            VimKey::Literal(l) => l.text@,
        }, st.augroup)
    }

    fn gen(&self, state: &mut State) -> (out: String) {
        gen_key(self)
    }
}

impl Generate for Ternary {
    open spec fn can_generate(&self, st: StateView) -> bool {
        expr_ok(Expression::Ternary(*self))
    }

    open spec fn generated(&self, st: StateView) -> (Seq<char>, Option<Seq<char>>) {
        (expr_lua(Expression::Ternary(*self), st.command_depth), st.augroup)
    }

    fn gen(&self, state: &mut State) -> (out: String) {
        gen_ternary(self, state.command_depth)
    }
}

impl Generate for DictAccess {
    open spec fn can_generate(&self, st: StateView) -> bool {
        expr_ok(Expression::DictAccess(*self))
    }

    open spec fn generated(&self, st: StateView) -> (Seq<char>, Option<Seq<char>>) {
        (expr_lua(Expression::DictAccess(*self), st.command_depth), st.augroup)
    }

    fn gen(&self, state: &mut State) -> (out: String) {
        gen_dict_access(self, state.command_depth)
    }
}

impl Generate for Expandable {
    open spec fn can_generate(&self, st: StateView) -> bool {
        expr_ok(Expression::Expandable(*self))
    }

    open spec fn generated(&self, st: StateView) -> (Seq<char>, Option<Seq<char>>) {
        (expr_lua(Expression::Expandable(*self), st.command_depth), st.augroup)
    }

    fn gen(&self, state: &mut State) -> (out: String) {
        gen_expandable(self, state.command_depth)
    }
}

impl Generate for Lambda {
    open spec fn can_generate(&self, st: StateView) -> bool {
        expr_ok(Expression::Lambda(*self))
    }

    open spec fn generated(&self, st: StateView) -> (Seq<char>, Option<Seq<char>>) {
        (expr_lua(Expression::Lambda(*self), st.command_depth), st.augroup)
    }

    fn gen(&self, state: &mut State) -> (out: String) {
        gen_lambda(self, state.command_depth)
    }
}

impl Generate for Register {
    open spec fn can_generate(&self, st: StateView) -> bool {
        expr_ok(Expression::Register(*self))
    }

    open spec fn generated(&self, st: StateView) -> (Seq<char>, Option<Seq<char>>) {
        (expr_lua(Expression::Register(*self), st.command_depth), st.augroup)
    }

    fn gen(&self, state: &mut State) -> (out: String) {
        gen_register(self)
    }
}

impl Generate for PrefixExpression {
    open spec fn can_generate(&self, st: StateView) -> bool {
        expr_ok(Expression::Prefix(*self))
    }

    open spec fn generated(&self, st: StateView) -> (Seq<char>, Option<Seq<char>>) {
        (expr_lua(Expression::Prefix(*self), st.command_depth), st.augroup)
    }

    fn gen(&self, state: &mut State) -> (out: String) {
        gen_prefix(self, state.command_depth)
    }
}

impl Generate for IndexExpression {
    open spec fn can_generate(&self, st: StateView) -> bool {
        expr_ok(Expression::Index(*self))
    }

    open spec fn generated(&self, st: StateView) -> (Seq<char>, Option<Seq<char>>) {
        (expr_lua(Expression::Index(*self), st.command_depth), st.augroup)
    }

    fn gen(&self, state: &mut State) -> (out: String) {
        gen_index(self, state.command_depth)
    }
}

impl Generate for VimOption {
    open spec fn can_generate(&self, st: StateView) -> bool {
        expr_ok(Expression::VimOption(*self))
    }

    open spec fn generated(&self, st: StateView) -> (Seq<char>, Option<Seq<char>>) {
        (expr_lua(Expression::VimOption(*self), st.command_depth), st.augroup)
    }

    fn gen(&self, state: &mut State) -> (out: String) {
        gen_vim_option(self)
    }
}

impl Generate for DictLiteral {
    open spec fn can_generate(&self, st: StateView) -> bool {
        expr_ok(Expression::Dict(*self))
    }

    open spec fn generated(&self, st: StateView) -> (Seq<char>, Option<Seq<char>>) {
        (expr_lua(Expression::Dict(*self), st.command_depth), st.augroup)
    }

    fn gen(&self, state: &mut State) -> (out: String) {
        gen_dict(self, state.command_depth)
    }
}

impl Generate for ArrayLiteral {
    open spec fn can_generate(&self, st: StateView) -> bool {
        expr_ok(Expression::Array(*self))
    }

    open spec fn generated(&self, st: StateView) -> (Seq<char>, Option<Seq<char>>) {
        (expr_lua(Expression::Array(*self), st.command_depth), st.augroup)
    }

    fn gen(&self, state: &mut State) -> (out: String) {
        gen_array(self, state.command_depth)
    }
}

impl Generate for VimString {
    open spec fn can_generate(&self, st: StateView) -> bool {
        expr_ok(Expression::String(*self))
    }

    open spec fn generated(&self, st: StateView) -> (Seq<char>, Option<Seq<char>>) {
        (expr_lua(Expression::String(*self), st.command_depth), st.augroup)
    }

    fn gen(&self, state: &mut State) -> (out: String) {
        gen_string(self)
    }
}

impl Generate for GroupedExpression {
    open spec fn can_generate(&self, st: StateView) -> bool {
        expr_ok(Expression::Grouped(*self))
    }

    open spec fn generated(&self, st: StateView) -> (Seq<char>, Option<Seq<char>>) {
        (expr_lua(Expression::Grouped(*self), st.command_depth), st.augroup)
    }

    fn gen(&self, state: &mut State) -> (out: String) {
        gen_grouped(self, state.command_depth)
    }
}

impl Generate for VimBoolean {
    open spec fn can_generate(&self, st: StateView) -> bool {
        expr_ok(Expression::Boolean(*self))
    }

    open spec fn generated(&self, st: StateView) -> (Seq<char>, Option<Seq<char>>) {
        (expr_lua(Expression::Boolean(*self), st.command_depth), st.augroup)
    }

    fn gen(&self, state: &mut State) -> (out: String) {
        gen_boolean(self)
    }
}

impl Generate for VimNumber {
    open spec fn can_generate(&self, st: StateView) -> bool {
        expr_ok(Expression::Number(*self))
    }

    open spec fn generated(&self, st: StateView) -> (Seq<char>, Option<Seq<char>>) {
        (expr_lua(Expression::Number(*self), st.command_depth), st.augroup)
    }

    fn gen(&self, state: &mut State) -> (out: String) {
        gen_number(self)
    }
}

impl Generate for InfixExpression {
    open spec fn can_generate(&self, st: StateView) -> bool {
        expr_ok(Expression::Infix(*self))
    }

    open spec fn generated(&self, st: StateView) -> (Seq<char>, Option<Seq<char>>) {
        (expr_lua(Expression::Infix(*self), st.command_depth), st.augroup)
    }

    fn gen(&self, state: &mut State) -> (out: String) {
        gen_infix(self, state.command_depth)
    }
}

} // verus!
