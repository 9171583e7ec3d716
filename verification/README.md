# anillo

The Anillo compiler's stages as a verified library, with the command-line
program around it.

- `src/lexer.rs`: bytes to tokens (`Lexer::tokenize`), specified by `lex`.
- `src/grammar.rs`: the grammar as functions on token models
  (`parse_tokens` and one function per production).
- `src/parser.rs`: tokens to the syntax tree (`Parser::run`, `Parser::parse_ingot`).
- `src/ast.rs`: the syntax tree and its checks (`Ast::verify`, specified by
  `ast_verdict` and `ast_warnings`).
- `src/compilerc.rs`: the C declarations and the C file from its template.
- `src/token.rs`, `src/ring.rs`, `src/error.rs`, `src/text.rs`: tokens,
  privilege levels, errors, and text helpers (decimal numbers, replacement).
- `app/main.rs`: argument handling, file reading and writing, and the
  printing of warnings and of the parser's progress.

The C file is generated from a template, `c_out.tmpl`, that the program reads
from the current directory.
