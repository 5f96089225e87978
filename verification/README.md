# hodei-scan

Building blocks of a static code analyser, written in Verus with their
contracts proved.

- `src/declarative`: the rule engine. Rules and rule sets, the line-based
  syntax trees, pattern matching, the OWASP Top 10 catalogue, the Semgrep
  translator, the rule tester and the language server helpers.
- `src/deep_analysis`: connascence detection and strength, taint policies and
  propagation, the semantic model and the facts drawn from it, result caches
  and the engine that runs them together.
- `src/config`: the `hodei.toml` model, its validation, the merge of a global
  and a project configuration, and durations.
- `src/cli`: change detection (Git deltas, content hashes), the analysis cache
  entries and statistics, and what an incremental analysis has to look at.
- `src/text`: lines, trimming, searching and decimal numbers over strings.
- `app/`: the command line program; it reads files, talks to Git, RocksDB and
  editors, and parses TOML and YAML into the library's types.
