//! The command line: arguments, options, usage, and the decisions of a run.
//!
//! A run is a sequence of steps: [`run`] decides from the arguments alone
//! whether to stop (with what to print and which exit code) or to analyze
//! with which options; the caller reads rulesets and sources, and hands the
//! results back to [`finish_analysis`].

use vstd::prelude::*;
use crate::text::{chars_of, list_items, parse_unsigned, parse_unsigned_of, push_all, push_str, split_list, string_of, texts};
use crate::report::{
    all_formats, chars_of_string, exit_code_for, exit_code_spec, find_format, format_name,
    is_known_format, version, Report, EXIT_ERROR, EXIT_SUCCESS,
};

verus! {

pub struct InputOptions {
    pub paths: Vec<String>,
    pub suffixes: Vec<String>,
    pub exclude: Vec<String>,
    pub ignore_tests: bool,
}

pub struct RuleOptions {
    pub rulesets: Vec<String>,
    pub only: Option<Vec<String>>,
    pub enable: Option<Vec<String>>,
    pub disable: Vec<String>,
    pub min_priority: u8,
    pub max_priority: u8,
}

pub struct OutputOptions {
    pub format: String,
    pub report_file: Option<String>,
    pub color: bool,
}

pub struct BehaviorOptions {
    pub verbose: bool,
    pub ignore_errors: bool,
    pub ignore_violations: bool,
    pub strict: bool,
}

/// Everything the command line sets.
pub struct Options {
    pub input: InputOptions,
    pub rules: RuleOptions,
    pub output: OutputOptions,
    pub behavior: BehaviorOptions,
}

/// The options as values.
pub struct OptionsView {
    pub paths: Seq<Seq<char>>,
    pub suffixes: Seq<Seq<char>>,
    pub exclude: Seq<Seq<char>>,
    pub ignore_tests: bool,
    pub rulesets: Seq<Seq<char>>,
    pub only: Option<Seq<Seq<char>>>,
    pub enable: Option<Seq<Seq<char>>>,
    pub disable: Seq<Seq<char>>,
    pub min_priority: u8,
    pub max_priority: u8,
    pub format: Seq<char>,
    pub report_file: Option<Seq<char>>,
    pub color: bool,
    pub verbose: bool,
    pub ignore_errors: bool,
    pub ignore_violations: bool,
    pub strict: bool,
}

pub open spec fn opt_texts(v: Option<Vec<String>>) -> Option<Seq<Seq<char>>> {
    match v {
        Some(x) => Some(texts(x@)),
        None => None,
    }
}

pub open spec fn opt_text(v: Option<String>) -> Option<Seq<char>> {
    match v {
        Some(x) => Some(x@),
        None => None,
    }
}

impl View for Options {
    type V = OptionsView;

    open spec fn view(&self) -> OptionsView {
        OptionsView {
            paths: texts(self.input.paths@),
            suffixes: texts(self.input.suffixes@),
            exclude: texts(self.input.exclude@),
            ignore_tests: self.input.ignore_tests,
            rulesets: texts(self.rules.rulesets@),
            only: opt_texts(self.rules.only),
            enable: opt_texts(self.rules.enable),
            disable: texts(self.rules.disable@),
            min_priority: self.rules.min_priority,
            max_priority: self.rules.max_priority,
            format: self.output.format@,
            report_file: opt_text(self.output.report_file),
            color: self.output.color,
            verbose: self.behavior.verbose,
            ignore_errors: self.behavior.ignore_errors,
            ignore_violations: self.behavior.ignore_violations,
            strict: self.behavior.strict,
        }
    }
}

/// The options before any argument: nothing set, priorities 0 and 1.
pub open spec fn default_options() -> OptionsView {
    OptionsView {
        paths: Seq::empty(),
        suffixes: Seq::empty(),
        exclude: Seq::empty(),
        ignore_tests: false,
        rulesets: Seq::empty(),
        only: None,
        enable: None,
        disable: Seq::empty(),
        min_priority: 0,
        max_priority: 1,
        format: Seq::empty(),
        report_file: None,
        color: false,
        verbose: false,
        ignore_errors: false,
        ignore_violations: false,
        strict: false,
    }
}

impl Default for Options {
    fn default() -> (r: Self)
        ensures
            r@ == default_options(),
    {
        let r = Options {
            input: InputOptions {
                paths: Vec::new(),
                suffixes: Vec::new(),
                exclude: Vec::new(),
                ignore_tests: false,
            },
            rules: RuleOptions {
                rulesets: Vec::new(),
                only: None,
                enable: None,
                disable: Vec::new(),
                min_priority: 0,
                max_priority: 1,
            },
            output: OutputOptions { format: String::new(), report_file: None, color: false },
            behavior: BehaviorOptions {
                verbose: false,
                ignore_errors: false,
                ignore_violations: false,
                strict: false,
            },
        };
        assert(texts(r.input.paths@) =~= Seq::<Seq<char>>::empty());
        assert(texts(r.input.suffixes@) =~= Seq::<Seq<char>>::empty());
        assert(texts(r.input.exclude@) =~= Seq::<Seq<char>>::empty());
        assert(texts(r.rules.rulesets@) =~= Seq::<Seq<char>>::empty());
        assert(texts(r.rules.disable@) =~= Seq::<Seq<char>>::empty());
        assert(r@ =~= default_options());
        r
    }
}

// ----- lists -------------------------------------------------------------------

/// A suffix with a leading `.`, added when missing.
pub open spec fn dotted(ext: Seq<char>) -> Seq<char> {
    if ext.len() > 0 && ext[0] == '.' {
        ext
    } else {
        "."@ + ext
    }
}

/// The suffixes of a `--suffixes` value.
pub open spec fn suffix_items(s: Seq<char>) -> Seq<Seq<char>> {
    list_items(s).map_values(|e: Seq<char>| dotted(e))
}

/// Splits a comma-separated suffix list and makes each suffix start with `.`.
pub fn suffix_list(s: &str) -> (r: Vec<String>)
    ensures
        texts(r@) == suffix_items(s@),
{
    let items = split_list(s);
    let mut out: Vec<String> = Vec::new();
    let mut i: usize = 0;
    while i < items.len()
        invariant
            i <= items.len(),
            texts(items@) == list_items(s@),
            texts(out@) == suffix_items(s@).take(i as int),
        decreases items.len() - i,
    {
        let e = chars_of_string(&items[i]);
        assert(texts(items@)[i as int] == e@);
        let d = if e.len() > 0 && e[0] == '.' {
            e
        } else {
            let mut d: Vec<char> = Vec::new();
            push_str(&mut d, ".");
            push_all(&mut d, &e);
            d
        };
        assert(d@ == dotted(list_items(s@)[i as int]));
        let ghost before = texts(out@);
        out.push(string_of(&d));
        assert(texts(out@) =~= before.push(d@));
        assert(suffix_items(s@).take(i + 1) =~= suffix_items(s@).take(i as int).push(d@));
        i = i + 1;
    }
    assert(suffix_items(s@).take(items.len() as int) =~= suffix_items(s@));
    out
}

/// The suffixes to scan: `.rs` unless some were configured.
pub open spec fn source_suffixes_spec(configured: Seq<Seq<char>>) -> Seq<Seq<char>> {
    if configured.len() == 0 {
        seq![".rs"@]
    } else {
        configured
    }
}

pub fn source_suffixes(configured: &Vec<String>) -> (r: Vec<String>)
    ensures
        texts(r@) == source_suffixes_spec(texts(configured@)),
{
    let mut out: Vec<String> = Vec::new();
    if configured.len() == 0 {
        out.push(string_of(&chars_of(".rs")));
        assert(texts(out@) =~= seq![".rs"@]);
    } else {
        let mut i: usize = 0;
        while i < configured.len()
            invariant
                i <= configured.len(),
                texts(out@) == texts(configured@).take(i as int),
            decreases configured.len() - i,
        {
            let ghost before = texts(out@);
            out.push(configured[i].clone());
            assert(texts(out@) =~= before.push(texts(configured@)[i as int]));
            assert(texts(configured@).take(i + 1) =~= texts(configured@).take(i as int).push(
                texts(configured@)[i as int],
            ));
            i = i + 1;
        }
        assert(texts(configured@).take(configured.len() as int) =~= texts(configured@));
    }
    out
}

// ----- options -------------------------------------------------------------

/// A priority option value: an integer from 1 to 5.
pub open spec fn priority_spec(flag: Seq<char>, value: Seq<char>) -> Result<u8, Seq<char>> {
    match parse_unsigned(value, 255) {
        None => Err(flag + " requires an integer"@),
        Some(n) => if 1 <= n <= 5 {
            Ok(n as u8)
        } else {
            Err(flag + " must be between 1 and 5"@)
        },
    }
}

pub fn parse_priority(flag: &str, value: &str) -> (r: Result<u8, String>)
    ensures
        match r {
            Ok(n) => priority_spec(flag@, value@) == Ok::<u8, Seq<char>>(n),
            Err(e) => priority_spec(flag@, value@) == Err::<u8, Seq<char>>(e@),
        },
{
    match parse_unsigned_of(value, 255) {
        None => {
            let mut m = chars_of(flag);
            push_str(&mut m, " requires an integer");
            Err(string_of(&m))
        },
        Some(n) => {
            if 1 <= n && n <= 5 {
                Ok(n as u8)
            } else {
                let mut m = chars_of(flag);
                push_str(&mut m, " must be between 1 and 5");
                Err(string_of(&m))
            }
        },
    }
}

pub open spec fn missing_value(name: Seq<char>) -> Seq<char> {
    "missing value for --"@ + name
}

/// The value of an option that needs one.
pub fn required_value(name: &str, value: Option<&String>) -> (r: Result<String, String>)
    ensures
        match value {
            Some(v) => r == Ok::<String, String>(*v) || (r matches Ok(x) && x@ == v@),
            None => r matches Err(e) && e@ == missing_value(name@),
        },
{
    match value {
        Some(v) => Ok(v.clone()),
        None => {
            let mut m = chars_of("missing value for --");
            let n = chars_of(name);
            push_all(&mut m, &n);
            Err(string_of(&m))
        },
    }
}

/// The options that take a value.
pub open spec fn is_value_option(name: Seq<char>) -> bool {
    name == "reportfile"@ || name == "suffixes"@ || name == "exclude"@ || name == "only"@ || name
        == "enable"@ || name == "disable"@ || name == "minimumpriority"@ || name
        == "maximumpriority"@
}

/// A value option applied to `o`: `None` when `name` takes no value.
pub open spec fn value_option(name: Seq<char>, value: Option<Seq<char>>, o: OptionsView) -> Option<Result<OptionsView, Seq<char>>> {
    if !is_value_option(name) {
        None
    } else {
        match value {
            None => Some(Err(missing_value(name))),
            Some(v) => Some(
                if name == "reportfile"@ {
                    Ok(OptionsView { report_file: Some(v), ..o })
                } else if name == "suffixes"@ {
                    Ok(OptionsView { suffixes: suffix_items(v), ..o })
                } else if name == "exclude"@ {
                    Ok(OptionsView { exclude: list_items(v), ..o })
                } else if name == "only"@ {
                    Ok(OptionsView { only: Some(list_items(v)), ..o })
                } else if name == "enable"@ {
                    Ok(OptionsView { enable: Some(list_items(v)), ..o })
                } else if name == "disable"@ {
                    Ok(OptionsView { disable: list_items(v), ..o })
                } else if name == "minimumpriority"@ {
                    match priority_spec("--minimumpriority"@, v) {
                        Ok(n) => Ok(OptionsView { min_priority: n, ..o }),
                        Err(e) => Err(e),
                    }
                } else {
                    match priority_spec("--maximumpriority"@, v) {
                        Ok(n) => Ok(OptionsView { max_priority: n, ..o }),
                        Err(e) => Err(e),
                    }
                },
            ),
        }
    }
}

fn name_is(name: &Vec<char>, s: &str) -> (b: bool)
    ensures
        b == (name@ == s@),
{
    let w = chars_of(s);
    crate::text::chars_eq(name, &w)
}

/// Applies a value option; `Ok(false)` when `name` takes no value.
pub fn apply_value_option(name: &str, value: Option<&String>, opt: &mut Options) -> (r: Result<bool, String>)
    ensures
        match value_option(name@, opt_ref_text(value), old(opt)@) {
            None => r == Ok::<bool, String>(false) && final(opt)@ == old(opt)@,
            Some(Ok(o)) => r == Ok::<bool, String>(true) && final(opt)@ == o,
            Some(Err(e)) => r matches Err(m) && m@ == e,
        },
{
    let n = chars_of(name);
    if name_is(&n, "reportfile") {
        match required_value(name, value) {
            Ok(v) => {
                opt.output.report_file = Some(v);
            },
            Err(e) => return Err(e),
        }
    } else if name_is(&n, "suffixes") {
        match required_value(name, value) {
            Ok(v) => {
                opt.input.suffixes = suffix_list(v.as_str());
            },
            Err(e) => return Err(e),
        }
    } else if name_is(&n, "exclude") {
        match required_value(name, value) {
            Ok(v) => {
                opt.input.exclude = split_list(v.as_str());
            },
            Err(e) => return Err(e),
        }
    } else if name_is(&n, "only") {
        match required_value(name, value) {
            Ok(v) => {
                opt.rules.only = Some(split_list(v.as_str()));
            },
            Err(e) => return Err(e),
        }
    } else if name_is(&n, "enable") {
        match required_value(name, value) {
            Ok(v) => {
                opt.rules.enable = Some(split_list(v.as_str()));
            },
            Err(e) => return Err(e),
        }
    } else if name_is(&n, "disable") {
        match required_value(name, value) {
            Ok(v) => {
                opt.rules.disable = split_list(v.as_str());
            },
            Err(e) => return Err(e),
        }
    } else if name_is(&n, "minimumpriority") {
        match required_value(name, value) {
            Ok(v) => match parse_priority("--minimumpriority", v.as_str()) {
                Ok(p) => {
                    opt.rules.min_priority = p;
                },
                Err(e) => return Err(e),
            },
            Err(e) => return Err(e),
        }
    } else if name_is(&n, "maximumpriority") {
        match required_value(name, value) {
            Ok(v) => match parse_priority("--maximumpriority", v.as_str()) {
                Ok(p) => {
                    opt.rules.max_priority = p;
                },
                Err(e) => return Err(e),
            },
            Err(e) => return Err(e),
        }
    } else {
        return Ok(false);
    }
    assert(opt@ =~= value_option(name@, opt_ref_text(value), old(opt)@)->Some_0->Ok_0);
    Ok(true)
}

pub open spec fn opt_ref_text(v: Option<&String>) -> Option<Seq<char>> {
    match v {
        Some(x) => Some(x@),
        None => None,
    }
}

/// A flag option applied to `o`: `None` when `name` is not a flag.
pub open spec fn flag_option(name: Seq<char>, o: OptionsView) -> Option<OptionsView> {
    if name == "verbose"@ {
        Some(OptionsView { verbose: true, ..o })
    } else if name == "ignore-tests"@ {
        Some(OptionsView { ignore_tests: true, ..o })
    } else if name == "strict"@ {
        Some(OptionsView { strict: true, ..o })
    } else if name == "ignore-errors-on-exit"@ {
        Some(OptionsView { ignore_errors: true, ..o })
    } else if name == "ignore-violations-on-exit"@ {
        Some(OptionsView { ignore_violations: true, ..o })
    } else if name == "color"@ {
        Some(OptionsView { color: true, ..o })
    } else {
        None
    }
}

/// Applies a flag option; `false` when `name` is not one.
pub fn apply_flag_option(name: &str, opt: &mut Options) -> (b: bool)
    ensures
        match flag_option(name@, old(opt)@) {
            Some(o) => b && final(opt)@ == o,
            None => !b && final(opt)@ == old(opt)@,
        },
{
    let n = chars_of(name);
    if name_is(&n, "verbose") {
        opt.behavior.verbose = true;
    } else if name_is(&n, "ignore-tests") {
        opt.input.ignore_tests = true;
    } else if name_is(&n, "strict") {
        opt.behavior.strict = true;
    } else if name_is(&n, "ignore-errors-on-exit") {
        opt.behavior.ignore_errors = true;
    } else if name_is(&n, "ignore-violations-on-exit") {
        opt.behavior.ignore_violations = true;
    } else if name_is(&n, "color") {
        opt.output.color = true;
    } else {
        return false;
    }
    assert(opt@ =~= flag_option(name@, old(opt)@)->Some_0);
    true
}

/// Whether `a` starts with `p`.
pub open spec fn starts_with(a: Seq<char>, p: Seq<char>) -> bool {
    p.len() <= a.len() && a.take(p.len() as int) == p
}

/// The arguments from `i` on applied to `o`, with the positionals seen so
/// far in `pos`.
pub open spec fn parse_from(args: Seq<Seq<char>>, i: int, o: OptionsView, pos: Seq<Seq<char>>) -> Result<(OptionsView, Seq<Seq<char>>), Seq<char>>
    decreases args.len() - i,
{
    if i < 0 || i >= args.len() {
        Ok((o, pos))
    } else {
        let a = args[i];
        if starts_with(a, "--"@) {
            let name = a.skip(2);
            let value = if i + 1 < args.len() {
                Some(args[i + 1])
            } else {
                None
            };
            match value_option(name, value, o) {
                Some(Err(e)) => Err(e),
                Some(Ok(o2)) => parse_from(args, i + 2, o2, pos),
                None => match flag_option(name, o) {
                    Some(o2) => parse_from(args, i + 1, o2, pos),
                    None => Err("unknown option: --"@ + name),
                },
            }
        } else if a == "-v"@ {
            parse_from(args, i + 1, OptionsView { verbose: true, ..o }, pos)
        } else if a.len() > 0 && a[0] == '-' && a != "-"@ {
            Err("unknown option: "@ + a)
        } else {
            parse_from(args, i + 1, o, pos.push(a))
        }
    }
}

/// The options and positionals of `args`, or the first error.
pub open spec fn parse_args_spec(args: Seq<Seq<char>>) -> Result<(OptionsView, Seq<Seq<char>>), Seq<char>> {
    parse_from(args, 0, default_options(), Seq::empty())
}

/// Reads the options and positional arguments.
pub fn parse_args(args: &Vec<String>) -> (r: Result<(Options, Vec<String>), String>)
    ensures
        match r {
            Ok((o, p)) => parse_args_spec(texts(args@)) == Ok::<
                (OptionsView, Seq<Seq<char>>),
                Seq<char>,
            >((o@, texts(p@))),
            Err(e) => parse_args_spec(texts(args@)) == Err::<
                (OptionsView, Seq<Seq<char>>),
                Seq<char>,
            >(e@),
        },
{
    let ghost all = texts(args@);
    let mut opt = Options::default();
    let mut positionals: Vec<String> = Vec::new();
    let mut i: usize = 0;
    assert(texts(positionals@) =~= Seq::<Seq<char>>::empty());
    while i < args.len()
        invariant
            i <= args.len() + 1,
            all == texts(args@),
            all.len() == args.len(),
            parse_args_spec(all) == parse_from(all, i as int, opt@, texts(positionals@)),
        decreases args.len() - i,
    {
        let a = chars_of_string(&args[i]);
        assert(all[i as int] == a@);
        let dash2 = a.len() >= 2 && a[0] == '-' && a[1] == '-';
        proof {
            reveal_strlit("--");
            assert("--"@ =~= seq!['-', '-']);
            if a.len() >= 2 {
                assert(a@.take(2) =~= seq![a@[0], a@[1]]);
            }
        }
        assert(dash2 == starts_with(a@, "--"@));
        if dash2 {
            let name_chars = crate::text::slice_of(&a, 2, a.len());
            assert(name_chars@ =~= a@.skip(2));
            let name = string_of(&name_chars);
            let value = if i + 1 < args.len() {
                Some(&args[i + 1])
            } else {
                None
            };
            assert(opt_ref_text(value) == (if i + 1 < all.len() {
                Some(all[i + 1])
            } else {
                None
            }));
            let ghost before = opt@;
            match apply_value_option(name.as_str(), value, &mut opt) {
                Err(e) => {
                    return Err(e);
                },
                Ok(true) => {
                    i = i + 2;
                    continue;
                },
                Ok(false) => {},
            }
            if !apply_flag_option(name.as_str(), &mut opt) {
                let mut m = chars_of("unknown option: --");
                push_all(&mut m, &name_chars);
                return Err(string_of(&m));
            }
        } else if name_is(&a, "-v") {
            opt.behavior.verbose = true;
        } else if a.len() > 0 && a[0] == '-' && !name_is(&a, "-") {
            let mut m = chars_of("unknown option: ");
            push_all(&mut m, &a);
            return Err(string_of(&m));
        } else {
            let ghost before = texts(positionals@);
            positionals.push(args[i].clone());
            assert(texts(positionals@) =~= before.push(a@));
        }
        i = i + 1;
    }
    Ok((opt, positionals))
}

// ----- usage -----------------------------------------------------------------

/// `items` joined with `sep`.
pub open spec fn join(items: Seq<Seq<char>>, sep: Seq<char>) -> Seq<char>
    decreases items.len(),
{
    if items.len() == 0 {
        Seq::<char>::empty()
    } else if items.len() == 1 {
        items[0]
    } else {
        join(items.drop_last(), sep) + sep + items.last()
    }
}

/// The names of every format.
pub open spec fn format_names() -> Seq<Seq<char>> {
    all_formats().map_values(|f: crate::report::ReportFormat| format_name(f))
}

pub open spec fn usage_head() -> Seq<char> {
    "Usage: messrust <paths> <format> <ruleset[,ruleset...]> [options]\n\nFormats: "@
}

pub open spec fn usage_tail() -> Seq<char> {
    "\n\nOptions:\n--minimumpriority <n>            Only rules with priority <= n (1 highest)\n--maximumpriority <n>            Only rules with priority >= n\n--reportfile <path>              Write report to file (stdout empty)\n--suffixes <ext[,ext...]>        Replace default source suffixes\n--exclude <substr[,substr...]>   Skip paths containing a substring\n--only, --enable <rules>         Keep only named loaded rules\n--disable <rules>                Remove named loaded rules\n--ignore-tests                   Skip conventional Rust test files\n--strict                         Include source-suppressed findings\n--color                          Colorize text output\n--verbose, -v                    Ruleset/load diagnostics\n--ignore-errors-on-exit          Exit 0/2 even when errors exist\n--ignore-violations-on-exit      Exit 0/1 even when findings exist\n--version                        Print version\n--help, -h                       Print this help"@
}

/// The usage text, ending with a line feed.
pub open spec fn usage_spec() -> Seq<char> {
    usage_head() + join(format_names(), ", "@) + usage_tail() + "\n"@
}

/// Joins `items` with `sep`.
pub fn join_texts(items: &Vec<String>, sep: &str) -> (r: Vec<char>)
    ensures
        r@ == join(texts(items@), sep@),
{
    let mut out: Vec<char> = Vec::new();
    let mut i: usize = 0;
    while i < items.len()
        invariant
            i <= items.len(),
            out@ == join(texts(items@).take(i as int), sep@),
        decreases items.len() - i,
    {
        let item = chars_of_string(&items[i]);
        let ghost t = texts(items@).take(i + 1);
        assert(t.drop_last() =~= texts(items@).take(i as int));
        assert(t.last() == item@);
        if i > 0 {
            push_str(&mut out, sep);
        }
        push_all(&mut out, &item);
        proof {
            if i == 0 {
                assert(t.len() == 1);
            }
        }
        i = i + 1;
    }
    assert(texts(items@).take(items.len() as int) =~= texts(items@));
    out
}

/// The usage text.
pub fn usage() -> (r: String)
    ensures
        r@ == usage_spec(),
{
    let names = crate::report::formats();
    assert(texts(names@) =~= format_names());
    let mut out = chars_of("Usage: messrust <paths> <format> <ruleset[,ruleset...]> [options]\n\nFormats: ");
    let j = join_texts(&names, ", ");
    push_all(&mut out, &j);
    push_str(&mut out, "\n\nOptions:\n--minimumpriority <n>            Only rules with priority <= n (1 highest)\n--maximumpriority <n>            Only rules with priority >= n\n--reportfile <path>              Write report to file (stdout empty)\n--suffixes <ext[,ext...]>        Replace default source suffixes\n--exclude <substr[,substr...]>   Skip paths containing a substring\n--only, --enable <rules>         Keep only named loaded rules\n--disable <rules>                Remove named loaded rules\n--ignore-tests                   Skip conventional Rust test files\n--strict                         Include source-suppressed findings\n--color                          Colorize text output\n--verbose, -v                    Ruleset/load diagnostics\n--ignore-errors-on-exit          Exit 0/2 even when errors exist\n--ignore-violations-on-exit      Exit 0/1 even when findings exist\n--version                        Print version\n--help, -h                       Print this help");
    push_str(&mut out, "\n");
    string_of(&out)
}

// ----- a run ---------------------------------------------------------------

/// What a run does next.
pub enum Step {
    /// Stop with `code`, after printing `stdout` and `stderr`.
    Exit { code: i32, stdout: String, stderr: String },
    /// Load rules, read sources, and analyze with these options.
    Analyze(Options),
}

/// What the first argument asks for when it is an information flag:
/// the exit code and what to print on standard output.
pub open spec fn info_flag(first: Seq<char>) -> Option<(i32, Seq<char>)> {
    if first == "--version"@ {
        Some((EXIT_SUCCESS, "messrust "@ + crate::report::tool_version() + "\n"@))
    } else if first == "--help"@ || first == "-h"@ || first == "help"@ {
        Some((EXIT_SUCCESS, usage_spec()))
    } else {
        None
    }
}

pub fn handle_info_flags(first: &String) -> (r: Option<(i32, String)>)
    ensures
        match r {
            Some((c, out)) => info_flag(first@) == Some((c, out@)),
            None => info_flag(first@) is None,
        },
{
    let f = chars_of_string(first);
    if name_is(&f, "--version") {
        let mut out = chars_of("messrust ");
        push_str(&mut out, version());
        push_str(&mut out, "\n");
        Some((EXIT_SUCCESS, string_of(&out)))
    } else if name_is(&f, "--help") || name_is(&f, "-h") || name_is(&f, "help") {
        Some((EXIT_SUCCESS, usage()))
    } else {
        None
    }
}

/// The options of an analysis run: the parsed options with the paths,
/// format and rulesets of the three positionals.
pub open spec fn with_positionals(o: OptionsView, pos: Seq<Seq<char>>) -> OptionsView {
    OptionsView {
        paths: list_items(pos[0]),
        format: pos[1],
        rulesets: list_items(pos[2]),
        ..o
    }
}

/// The first step of a run with `args` (without the program name).
pub open spec fn run_spec(args: Seq<Seq<char>>) -> (i32, Seq<char>, Seq<char>, Option<OptionsView>) {
    if args.len() == 0 {
        (EXIT_ERROR, Seq::empty(), usage_spec(), None)
    } else if let Some((code, text)) = info_flag(args[0]) {
        (code, text, Seq::empty(), None)
    } else {
        match parse_args_spec(args) {
            Err(e) => (EXIT_ERROR, Seq::empty(), "error: "@ + e + "\n"@, None),
            Ok((o, pos)) => if pos.len() < 3 {
                (EXIT_ERROR, Seq::empty(), usage_spec(), None)
            } else {
                let o2 = with_positionals(o, pos);
                if find_format(all_formats(), o2.format) is None {
                    (
                        EXIT_ERROR,
                        Seq::empty(),
                        "error: unknown report format "@ + o2.format + ". Available: "@ + join(
                            format_names(),
                            ", "@,
                        ) + "\n"@,
                        None,
                    )
                } else {
                    (EXIT_SUCCESS, Seq::empty(), Seq::empty(), Some(o2))
                }
            },
        }
    }
}

/// Decides the first step of a run: stop (usage, version, an argument
/// error, an unknown format) or analyze with the options read.
pub fn run(args: &Vec<String>) -> (r: Step)
    ensures
        match r {
            Step::Exit { code, stdout, stderr } => run_spec(texts(args@)) == (
                code,
                stdout@,
                stderr@,
                None::<OptionsView>,
            ),
            Step::Analyze(o) => run_spec(texts(args@)).3 == Some(o@),
        },
{
    if args.len() == 0 {
        return Step::Exit { code: EXIT_ERROR, stdout: String::new(), stderr: usage() };
    }
    assert(texts(args@)[0] == args@[0]@);
    match handle_info_flags(&args[0]) {
        Some((code, out)) => {
            return Step::Exit { code, stdout: out, stderr: String::new() };
        },
        None => {},
    }
    let (mut opt, positionals) = match parse_args(args) {
        Ok(v) => v,
        Err(e) => {
            let mut m = chars_of("error: ");
            let ec = chars_of_string(&e);
            push_all(&mut m, &ec);
            push_str(&mut m, "\n");
            return Step::Exit { code: EXIT_ERROR, stdout: String::new(), stderr: string_of(&m) };
        },
    };
    let ghost opt_before = opt@;
    if positionals.len() < 3 {
        return Step::Exit { code: EXIT_ERROR, stdout: String::new(), stderr: usage() };
    }
    assert(texts(positionals@)[0] == positionals@[0]@);
    assert(texts(positionals@)[1] == positionals@[1]@);
    assert(texts(positionals@)[2] == positionals@[2]@);
    opt.input.paths = split_list(positionals[0].as_str());
    opt.output.format = positionals[1].clone();
    opt.rules.rulesets = split_list(positionals[2].as_str());
    assert(opt@ =~= with_positionals(opt_before, texts(positionals@)));
    if !is_known_format(opt.output.format.as_str()) {
        let mut m = chars_of("error: unknown report format ");
        let f = chars_of_string(&opt.output.format);
        push_all(&mut m, &f);
        push_str(&mut m, ". Available: ");
        let names = crate::report::formats();
        assert(texts(names@) =~= format_names());
        let j = join_texts(&names, ", ");
        push_all(&mut m, &j);
        push_str(&mut m, "\n");
        return Step::Exit { code: EXIT_ERROR, stdout: String::new(), stderr: string_of(&m) };
    }
    Step::Analyze(opt)
}

/// The rules kept by `--only` (or `--enable` when `--only` is absent).
pub open spec fn only_spec(o: OptionsView) -> Seq<Seq<char>> {
    match o.only {
        Some(v) => v,
        None => match o.enable {
            Some(v) => v,
            None => Seq::empty(),
        },
    }
}

pub fn only_rules(opt: &Options) -> (r: Vec<String>)
    ensures
        texts(r@) == only_spec(opt@),
{
    let src = match &opt.rules.only {
        Some(v) => v,
        None => match &opt.rules.enable {
            Some(v) => v,
            None => {
                let r: Vec<String> = Vec::new();
                assert(texts(r@) =~= Seq::<Seq<char>>::empty());
                return r;
            },
        },
    };
    let mut out: Vec<String> = Vec::new();
    let mut i: usize = 0;
    while i < src.len()
        invariant
            i <= src.len(),
            texts(out@) == texts(src@).take(i as int),
        decreases src.len() - i,
    {
        let ghost before = texts(out@);
        out.push(src[i].clone());
        assert(texts(out@) =~= before.push(texts(src@)[i as int]));
        assert(texts(src@).take(i + 1) =~= texts(src@).take(i as int).push(texts(src@)[i as int]));
        i = i + 1;
    }
    assert(texts(src@).take(src.len() as int) =~= texts(src@));
    out
}

/// The exit code once the report is written.
pub fn finish_analysis(report: &Report, opt: &Options) -> (code: i32)
    ensures
        code == exit_code_spec(report, opt.behavior.ignore_errors, opt.behavior.ignore_violations),
{
    exit_code_for(report, opt.behavior.ignore_errors, opt.behavior.ignore_violations)
}


// ----- flags ---------------------------------------------------------------------

/// The boolean options a flag can turn on, by the flag's name.
pub open spec fn is_flag_name(flag: Seq<char>) -> bool {
    flag == "verbose"@ || flag == "ignore-tests"@ || flag == "strict"@ || flag == "ignore-errors-on-exit"@
        || flag == "ignore-violations-on-exit"@ || flag == "color"@
}

/// Whether the boolean option that `flag` names is on in `o`.
pub open spec fn flag_on(o: OptionsView, flag: Seq<char>) -> bool {
    if flag == "verbose"@ {
        o.verbose
    } else if flag == "ignore-tests"@ {
        o.ignore_tests
    } else if flag == "strict"@ {
        o.strict
    } else if flag == "ignore-errors-on-exit"@ {
        o.ignore_errors
    } else if flag == "ignore-violations-on-exit"@ {
        o.ignore_violations
    } else {
        o.color
    }
}

/// Once on, a boolean option stays on through the rest of the arguments.
proof fn lemma_flag_stays_on(args: Seq<Seq<char>>, i: int, o: OptionsView, pos: Seq<Seq<char>>, flag: Seq<char>)
    requires
        flag_on(o, flag),
    ensures
        parse_from(args, i, o, pos) matches Ok((o2, p)) ==> flag_on(o2, flag),
    decreases args.len() - i,
{
    if 0 <= i < args.len() {
        let a = args[i];
        if starts_with(a, "--"@) {
            let name = a.skip(2);
            let value = if i + 1 < args.len() {
                Some(args[i + 1])
            } else {
                None
            };
            match value_option(name, value, o) {
                Some(Ok(o2)) => lemma_flag_stay_on_value(args, i, o, o2, pos, flag),
                Some(Err(_)) => {},
                None => match flag_option(name, o) {
                    Some(o2) => lemma_flag_stays_on(args, i + 1, o2, pos, flag),
                    None => {},
                },
            }
        } else if a == "-v"@ {
            lemma_flag_stays_on(args, i + 1, OptionsView { verbose: true, ..o }, pos, flag);
        } else if !(a.len() > 0 && a[0] == '-' && a != "-"@) {
            lemma_flag_stays_on(args, i + 1, o, pos.push(a), flag);
        }
    }
}

proof fn lemma_flag_stay_on_value(
    args: Seq<Seq<char>>,
    i: int,
    o: OptionsView,
    o2: OptionsView,
    pos: Seq<Seq<char>>,
    flag: Seq<char>,
)
    requires
        flag_on(o, flag),
        0 <= i < args.len(),
        value_option(
            args[i].skip(2),
            if i + 1 < args.len() {
                Some(args[i + 1])
            } else {
                None
            },
            o,
        ) == Some(Ok::<OptionsView, Seq<char>>(o2)),
    ensures
        parse_from(args, i + 2, o2, pos) matches Ok((o3, p)) ==> flag_on(o3, flag),
    decreases args.len() - i, 0int,
{
    assert(flag_on(o2, flag));
    lemma_flag_stays_on(args, i + 2, o2, pos, flag);
}

/// A flag read as an option is on in the options parsed: wherever
/// `--<flag>` stands among the arguments still to read, and whatever
/// follows it, a successful parse has the option on.
pub proof fn law_flags_read_are_on(args: Seq<Seq<char>>, i: int, o: OptionsView, pos: Seq<Seq<char>>, flag: Seq<char>)
    requires
        0 <= i < args.len(),
        is_flag_name(flag),
        args[i] == "--"@ + flag,
    ensures
        parse_from(args, i, o, pos) matches Ok((o2, p)) ==> flag_on(o2, flag),
{
    reveal_strlit("--");
    reveal_strlit("-v");
    reveal_strlit("verbose");
    reveal_strlit("ignore-tests");
    reveal_strlit("strict");
    reveal_strlit("ignore-errors-on-exit");
    reveal_strlit("ignore-violations-on-exit");
    reveal_strlit("color");
    reveal_strlit("reportfile");
    reveal_strlit("suffixes");
    reveal_strlit("exclude");
    reveal_strlit("only");
    reveal_strlit("enable");
    reveal_strlit("disable");
    reveal_strlit("minimumpriority");
    reveal_strlit("maximumpriority");
    reveal_strlit("--version");
    reveal_strlit("--help");
    reveal_strlit("-h");
    reveal_strlit("help");
    let a = args[i];
    assert(a.take(2) =~= "--"@);
    assert(a.skip(2) =~= flag);
    assert(starts_with(a, "--"@));
    assert("verbose"@[0] == 'v' && "exclude"@[0] == 'e' && "disable"@[0] == 'd');
    assert("strict"@[0] == 's' && "enable"@[0] == 'e');
    assert(!is_value_option(flag));
    assert(flag_option(flag, o) is Some);
    let o2 = flag_option(flag, o)->Some_0;
    assert(flag_on(o2, flag));
    assert(parse_from(args, i, o, pos) == parse_from(args, i + 1, o2, pos));
    lemma_flag_stays_on(args, i + 1, o2, pos, flag);
}

proof fn lemma_positionals_first(args: Seq<Seq<char>>, j: int, k: int, o: OptionsView, pos: Seq<Seq<char>>)
    requires
        0 <= j <= k <= args.len(),
        forall|m: int| j <= m < k ==> !(args[m].len() > 0 && #[trigger] args[m][0] == '-'),
    ensures
        parse_from(args, j, o, pos) == parse_from(args, k, o, pos + args.subrange(j, k)),
    decreases k - j,
{
    reveal_strlit("--");
    reveal_strlit("-v");
    reveal_strlit("verbose");
    reveal_strlit("ignore-tests");
    reveal_strlit("strict");
    reveal_strlit("ignore-errors-on-exit");
    reveal_strlit("ignore-violations-on-exit");
    reveal_strlit("color");
    reveal_strlit("reportfile");
    reveal_strlit("suffixes");
    reveal_strlit("exclude");
    reveal_strlit("only");
    reveal_strlit("enable");
    reveal_strlit("disable");
    reveal_strlit("minimumpriority");
    reveal_strlit("maximumpriority");
    reveal_strlit("--version");
    reveal_strlit("--help");
    reveal_strlit("-h");
    reveal_strlit("help");
    if j < k {
        let a = args[j];
        assert(!(a.len() > 0 && a[0] == '-'));
        if a.len() >= 2 {
            assert(a.take(2) != "--"@) by {
                assert(a.take(2)[0] == a[0]);
            }
        }
        assert(a != "-v"@) by {
            if a == "-v"@ {
                assert(a[0] == '-');
            }
        }
        lemma_positionals_first(args, j + 1, k, o, pos.push(a));
        assert(pos.push(a) + args.subrange(j + 1, k) =~= pos + args.subrange(j, k));
    } else {
        assert(pos + args.subrange(j, k) =~= pos);
    }
}

/// A command line of positional arguments followed by `--<flag>` (and
/// anything after it) that starts an analysis starts it with that option
/// on: `src text rust --ignore-tests` ignores tests.
pub proof fn law_run_sets_flags_given(args: Seq<Seq<char>>, k: int, flag: Seq<char>)
    requires
        0 <= k < args.len(),
        is_flag_name(flag),
        args[k] == "--"@ + flag,
        forall|m: int| 0 <= m < k ==> !(args[m].len() > 0 && #[trigger] args[m][0] == '-'),
    ensures
        run_spec(args).3 matches Some(o) ==> flag_on(o, flag),
{
    lemma_positionals_first(args, 0, k, default_options(), Seq::empty());
    law_flags_read_are_on(args, k, default_options(), Seq::<Seq<char>>::empty() + args.subrange(0, k), flag);
}


/// `-v` is `--verbose`: read as an option, a successful parse has
/// `verbose` on.
pub proof fn law_short_verbose_is_on(args: Seq<Seq<char>>, i: int, o: OptionsView, pos: Seq<Seq<char>>)
    requires
        0 <= i < args.len(),
        args[i] == "-v"@,
    ensures
        parse_from(args, i, o, pos) matches Ok((o2, p)) ==> o2.verbose,
{
    reveal_strlit("-v");
    reveal_strlit("--");
    reveal_strlit("verbose");
    let a = args[i];
    assert(!starts_with(a, "--"@)) by {
        if starts_with(a, "--"@) {
            assert(a.take(2)[1] == a[1]);
        }
    }
    let o2 = OptionsView { verbose: true, ..o };
    assert(flag_on(o2, "verbose"@));
    lemma_flag_stays_on(args, i + 1, o2, pos, "verbose"@);
}

} // verus!
