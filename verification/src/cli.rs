//! The command line of the terminal UI.
use vstd::prelude::*;
use crate::k8s_model::{opt_str_view, strs_view};
use crate::text::{chars_of, owned, substring};

verus! {

/// The options, by position: `url`, `token`, `owner`, `name`, `repo_url`, `workflow_path`,
/// `created_after`, `created_before`, `status`.
pub const OPTION_COUNT: usize = 9;

/// The long name of each option.
pub open spec fn long_names() -> Seq<Seq<char>> {
    seq![
        "url"@, "token"@, "owner"@, "name"@, "repo-url"@, "workflow-path"@, "created-after"@,
        "created-before"@, "status"@,
    ]
}

/// The first option at or after `k` with the long name `name`.
pub open spec fn long_slot_from(name: Seq<char>, k: int) -> Option<int>
    decreases 9 - k,
{
    if k < 0 || k >= 9 {
        None
    } else if long_names()[k] == name {
        Some(k)
    } else {
        long_slot_from(name, k + 1)
    }
}

/// The option a long name selects.
pub open spec fn long_slot(name: Seq<char>) -> Option<int> {
    long_slot_from(name, 0)
}

pub proof fn lemma_long_slot_from(name: Seq<char>, k: int)
    requires
        0 <= k,
    ensures
        match long_slot_from(name, k) {
            Some(p) => k <= p < 9,
            None => true,
        },
    decreases 9 - k,
{
    if k < 9 && long_names()[k] != name {
        lemma_long_slot_from(name, k + 1);
    }
}

/// The option a short name selects: `-u` for the URL, `-t` for the token.
pub open spec fn short_slot(c: char) -> Option<int> {
    if c == 'u' { Some(0) } else if c == 't' { Some(1) } else { None }
}

/// An argument that starts an option: `-` followed by something, other than `--` alone.
pub open spec fn is_flag(a: Seq<char>) -> bool {
    a.len() >= 2 && a[0] == '-' && a != "--"@
}

/// Why a command line was refused.
pub enum CliErrorView {
    Help,
    UnknownArgument(Seq<char>),
    MissingValue(Seq<char>),
    RepeatedArgument(Seq<char>),
    UnexpectedArgument(Seq<char>),
}

/// Why a command line was refused, with the argument concerned.
pub enum CliError {
    /// `-h` or `--help`: the caller shows the usage.
    Help,
    UnknownArgument(String),
    MissingValue(String),
    RepeatedArgument(String),
    UnexpectedArgument(String),
}

impl View for CliError {
    type V = CliErrorView;

    open spec fn view(&self) -> CliErrorView {
        match self {
            CliError::Help => CliErrorView::Help,
            CliError::UnknownArgument(a) => CliErrorView::UnknownArgument(a@),
            CliError::MissingValue(a) => CliErrorView::MissingValue(a@),
            CliError::RepeatedArgument(a) => CliErrorView::RepeatedArgument(a@),
            CliError::UnexpectedArgument(a) => CliErrorView::UnexpectedArgument(a@),
        }
    }
}

/// The first `=` of a long option's body, or its length.
pub open spec fn eq_index(body: Seq<char>) -> int
    decreases body.len(),
{
    if body.len() == 0 {
        0
    } else if body[0] == '=' {
        0
    } else {
        1 + eq_index(body.drop_first())
    }
}

/// Takes a value for option `k`, given by argument `a`: refused when the option was given
/// before.
pub open spec fn take_value(
    a: Seq<char>,
    next: int,
    slots: Seq<Option<Seq<char>>>,
    k: int,
    v: Seq<char>,
) -> (Result<(int, Seq<Option<Seq<char>>>), CliErrorView>) {
    if slots[k] is Some {
        Err(CliErrorView::RepeatedArgument(a))
    } else {
        Ok((next, slots.update(k, Some(v))))
    }
}

/// What the argument at `i` does: it sets an option (consuming one or two arguments, giving
/// the next position and the options) or the command line is refused. Clap's rules for this
/// command line: `--name value`, `--name=value`, `-u value`, `-uvalue`, `-u=value`; a value
/// cannot start an option; an option is given at most once; no positional arguments.
pub open spec fn parse_step(args: Seq<Seq<char>>, i: int, slots: Seq<Option<Seq<char>>>) -> (Result<(int, Seq<Option<Seq<char>>>), CliErrorView>) {
    let a = args[i];
    let has_next = i + 1 < args.len() && !is_flag(args[i + 1]);
    if a == "--"@ {
        if i + 1 < args.len() {
            Err(CliErrorView::UnexpectedArgument(args[i + 1]))
        } else {
            Ok((i + 1, slots))
        }
    } else if a.len() >= 2 && a[0] == '-' && a[1] == '-' {
        let body = a.skip(2);
        let e = eq_index(body);
        let name = body.take(e);
        if name == "help"@ {
            Err(CliErrorView::Help)
        } else {
            match long_slot(name) {
                None => Err(CliErrorView::UnknownArgument(a)),
                Some(k) => if e < body.len() {
                    take_value(a, i + 1, slots, k, body.skip(e + 1))
                } else if has_next {
                    take_value(a, i + 2, slots, k, args[i + 1])
                } else {
                    Err(CliErrorView::MissingValue(a))
                },
            }
        }
    } else if a.len() >= 2 && a[0] == '-' {
        let c = a[1];
        let rest = a.skip(2);
        if c == 'h' {
            Err(CliErrorView::Help)
        } else {
            match short_slot(c) {
                None => Err(CliErrorView::UnknownArgument(a)),
                Some(k) => if rest.len() > 0 {
                    take_value(a, i + 1, slots, k, if rest[0] == '=' { rest.drop_first() } else { rest })
                } else if has_next {
                    take_value(a, i + 2, slots, k, args[i + 1])
                } else {
                    Err(CliErrorView::MissingValue(a))
                },
            }
        }
    } else {
        Err(CliErrorView::UnexpectedArgument(a))
    }
}

/// The options given by `args` from position `i` on, added to `slots`.
pub open spec fn parse_args(args: Seq<Seq<char>>, i: int, slots: Seq<Option<Seq<char>>>) -> (Result<Seq<Option<Seq<char>>>, CliErrorView>)
    decreases args.len() - i,
{
    if i < 0 || i >= args.len() {
        Ok(slots)
    } else {
        match parse_step(args, i, slots) {
            Err(e) => Err(e),
            Ok((j, s)) => if i < j <= args.len() { parse_args(args, j, s) } else { Ok(s) },
        }
    }
}

/// No option given.
pub open spec fn no_options() -> Seq<Option<Seq<char>>> {
    Seq::new(9, |k: int| None::<Seq<char>>)
}

/// The options of a command line; its first argument is the program.
pub open spec fn parse_command_line(args: Seq<Seq<char>>) -> (Result<Seq<Option<Seq<char>>>, CliErrorView>) {
    parse_args(args, 1, no_options())
}

/// The options of the terminal UI.
pub struct Cli {
    pub url: String,
    pub token: Option<String>,
    pub owner: Option<String>,
    pub name: Option<String>,
    pub repo_url: Option<String>,
    pub workflow_path: Option<String>,
    pub created_after: Option<String>,
    pub created_before: Option<String>,
    pub status: Option<String>,
}

/// The options as values, in the order of `long_names`.
pub open spec fn cli_slots(c: Cli) -> Seq<Option<Seq<char>>> {
    seq![
        Some(c.url@), opt_str_view(c.token), opt_str_view(c.owner), opt_str_view(c.name),
        opt_str_view(c.repo_url), opt_str_view(c.workflow_path), opt_str_view(c.created_after),
        opt_str_view(c.created_before), opt_str_view(c.status),
    ]
}

/// The URL used when neither the command line nor the environment gives one.
pub open spec fn default_url() -> Seq<char> {
    "http://localhost:3000"@
}

/// The options with the environment's URL and token where the command line gives none, and
/// the default URL where neither does.
pub open spec fn with_fallbacks(slots: Seq<Option<Seq<char>>>, env_url: Option<Seq<char>>, env_token: Option<Seq<char>>) -> Seq<Option<Seq<char>>> {
    slots.update(0, Some(match slots[0] {
        Some(u) => u,
        None => match env_url {
            Some(u) => u,
            None => default_url(),
        },
    })).update(1, match slots[1] {
        Some(t) => Some(t),
        None => env_token,
    })
}

fn long_name(k: usize) -> (r: String)
    requires
        k < 9,
    ensures
        r@ == long_names()[k as int],
{
    if k == 0 {
        owned("url")
    } else if k == 1 {
        owned("token")
    } else if k == 2 {
        owned("owner")
    } else if k == 3 {
        owned("name")
    } else if k == 4 {
        owned("repo-url")
    } else if k == 5 {
        owned("workflow-path")
    } else if k == 6 {
        owned("created-after")
    } else if k == 7 {
        owned("created-before")
    } else {
        owned("status")
    }
}

fn find_long(name: &String) -> (r: Option<usize>)
    ensures
        match r {
            Some(k) => long_slot(name@) == Some(k as int) && k < 9,
            None => long_slot(name@) is None,
        },
{
    let mut k: usize = 0;
    while k < OPTION_COUNT
        invariant
            k <= 9,
            long_slot(name@) == long_slot_from(name@, k as int),
        decreases 9 - k,
    {
        if long_name(k) == *name {
            return Some(k);
        }
        k = k + 1;
    }
    None
}

fn is_flag_exec(a: &Vec<char>) -> (r: bool)
    ensures
        r == is_flag(a@),
{
    proof {
        reveal_strlit("--");
    }
    let r = a.len() >= 2 && a[0] == '-' && !(a.len() == 2 && a[1] == '-');
    proof {
        if a@.len() == 2 && a@[0] == '-' && a@[1] == '-' {
            assert(a@ =~= "--"@);
        }
        if a@ == "--"@ {
            assert(a@.len() == 2 && a@[1] == '-');
        }
    }
    r
}

fn set_slot(a: &String, next: usize, slots: &mut Vec<Option<String>>, k: usize, v: String) -> (r: Result<usize, CliError>)
    requires
        k < old(slots)@.len(),
    ensures
        final(slots)@.len() == old(slots)@.len(),
        match take_value(a@, next as int, old(slots)@.map_values(|o: Option<String>| opt_str_view(o)), k as int, v@) {
            Ok((j, s)) => r == Ok::<usize, CliError>(j as usize) && final(slots)@.map_values(|o: Option<String>| opt_str_view(o)) == s,
            Err(e) => r is Err && r->Err_0@ == e,
        },
{
    let ghost sv = slots@.map_values(|o: Option<String>| opt_str_view(o));
    if slots[k].is_some() {
        return Err(CliError::RepeatedArgument(a.clone()));
    }
    let ghost vv = v@;
    slots.set(k, Some(v));
    assert(slots@.map_values(|o: Option<String>| opt_str_view(o)) =~= sv.update(k as int, Some(vv)));
    Ok(next)
}

fn eq_index_exec(a: &Vec<char>) -> (e: usize)
    requires
        a@.len() >= 2,
    ensures
        e == eq_index(a@.skip(2)),
        e <= a@.len() - 2,
{
    let mut k: usize = 2;
    while k < a.len() && a[k] != '='
        invariant
            2 <= k <= a@.len(),
            eq_index(a@.skip(2)) == (k - 2) + eq_index(a@.skip(k as int)),
        decreases a@.len() - k,
    {
        assert(a@.skip(k as int).drop_first() =~= a@.skip(k + 1));
        k = k + 1;
    }
    k - 2
}

fn parse_step_exec(args: &Vec<String>, i: usize, slots: &mut Vec<Option<String>>) -> (r: Result<usize, CliError>)
    requires
        i < args@.len(),
        old(slots)@.len() == 9,
    ensures
        final(slots)@.len() == 9,
        match parse_step(strs_view(args@), i as int, old(slots)@.map_values(|o: Option<String>| opt_str_view(o))) {
            Ok((j, s)) => r == Ok::<usize, CliError>(j as usize) && final(slots)@.map_values(|o: Option<String>| opt_str_view(o)) == s,
            Err(e) => r is Err && r->Err_0@ == e,
        },
{
    let ghost av = strs_view(args@);
    let n = args.len();
    let a = chars_of(args[i].as_str());
    assert(a@ == av[i as int]);
    let has_next = if i + 1 < n {
        let nx = chars_of(args[i + 1].as_str());
        assert(nx@ == av[i + 1]);
        !is_flag_exec(&nx)
    } else {
        false
    };
    proof {
        reveal_strlit("--");
        reveal_strlit("help");
    }
    if a.len() == 2 && a[0] == '-' && a[1] == '-' {
        assert(a@ =~= "--"@);
        if i + 1 < args.len() {
            return Err(CliError::UnexpectedArgument(args[i + 1].clone()));
        }
        return Ok(i + 1);
    }
    assert(a@ != "--"@ || (a@.len() == 2 && a@[0] == '-' && a@[1] == '-'));
    if a.len() >= 2 && a[0] == '-' && a[1] == '-' {
        let e = eq_index_exec(&a);
        let name = substring(&a, 2, 2 + e);
        assert(name@ =~= a@.skip(2).take(e as int));
        if name == owned("help") {
            return Err(CliError::Help);
        }
        match find_long(&name) {
            None => Err(CliError::UnknownArgument(args[i].clone())),
            Some(k) => {
                if 2 + e < a.len() {
                    let v = substring(&a, 3 + e, a.len());
                    assert(v@ =~= a@.skip(2).skip(e + 1));
                    set_slot(&args[i], i + 1, slots, k, v)
                } else if has_next {
                    let v = args[i + 1].clone();
                    set_slot(&args[i], i + 2, slots, k, v)
                } else {
                    Err(CliError::MissingValue(args[i].clone()))
                }
            },
        }
    } else if a.len() >= 2 && a[0] == '-' {
        let c = a[1];
        if c == 'h' {
            return Err(CliError::Help);
        }
        let k: usize = if c == 'u' {
            0
        } else if c == 't' {
            1
        } else {
            return Err(CliError::UnknownArgument(args[i].clone()));
        };
        if a.len() > 2 {
            let start: usize = if a[2] == '=' { 3 } else { 2 };
            let v = substring(&a, start, a.len());
            proof {
                let rest = a@.skip(2);
                if a@[2] == '=' {
                    assert(v@ =~= rest.drop_first());
                } else {
                    assert(v@ =~= rest);
                }
            }
            set_slot(&args[i], i + 1, slots, k, v)
        } else if has_next {
            let v = args[i + 1].clone();
            set_slot(&args[i], i + 2, slots, k, v)
        } else {
            Err(CliError::MissingValue(args[i].clone()))
        }
    } else {
        Err(CliError::UnexpectedArgument(args[i].clone()))
    }
}

/// A step moves forward by one or two arguments and keeps the nine options.
pub proof fn lemma_parse_step(args: Seq<Seq<char>>, i: int, slots: Seq<Option<Seq<char>>>)
    requires
        0 <= i < args.len(),
        slots.len() == 9,
    ensures
        parse_step(args, i, slots) matches Ok((j, s)) ==> i < j <= args.len() && s.len() == 9,
{
    let a = args[i];
    if !(a == "--"@) && a.len() >= 2 && a[0] == '-' && a[1] == '-' {
        let body = a.skip(2);
        let e = eq_index(body);
        lemma_long_slot_from(body.take(e), 0);
    }
}

impl Cli {
    /// Reads a command line (its first argument is the program) as clap does for this
    /// interface, taking the URL and the token from the environment values where the command
    /// line gives none, and `http://localhost:3000` as the URL where neither does.
    pub fn try_parse_with_env(args: &Vec<String>, env_url: Option<String>, env_token: Option<String>) -> (r: Result<Cli, CliError>)
        ensures
            match parse_command_line(strs_view(args@)) {
                Ok(s) => r is Ok && cli_slots(r->Ok_0) == with_fallbacks(s, opt_str_view(env_url), opt_str_view(env_token)),
                Err(e) => r is Err && r->Err_0@ == e,
            },
    {
        let ghost av = strs_view(args@);
        let mut slots: Vec<Option<String>> = Vec::new();
        let mut k: usize = 0;
        while k < OPTION_COUNT
            invariant
                k <= 9,
                slots@.len() == k,
                forall|j: int| 0 <= j < k ==> #[trigger] slots@[j] is None,
            decreases 9 - k,
        {
            slots.push(None);
            k = k + 1;
        }
        assert(slots@.map_values(|o: Option<String>| opt_str_view(o)) =~= no_options());
        let mut i: usize = 1;
        while i < args.len()
            invariant
                1 <= i,
                av == strs_view(args@),
                slots@.len() == 9,
                parse_command_line(av) == parse_args(av, i as int, slots@.map_values(|o: Option<String>| opt_str_view(o))),
            decreases args@.len() - i,
        {
            let ghost sv = slots@.map_values(|o: Option<String>| opt_str_view(o));
            proof {
                lemma_parse_step(av, i as int, sv);
            }
            match parse_step_exec(args, i, &mut slots) {
                Err(e) => {
                    return Err(e);
                },
                Ok(j) => {
                    i = j;
                },
            }
        }
        let url = match slots[0].clone() {
            Some(u) => u,
            None => match env_url {
                Some(u) => u,
                None => owned("http://localhost:3000"),
            },
        };
        let token = match slots[1].clone() {
            Some(t) => Some(t),
            None => env_token,
        };
        let cli = Cli {
            url,
            token,
            owner: slots[2].clone(),
            name: slots[3].clone(),
            repo_url: slots[4].clone(),
            workflow_path: slots[5].clone(),
            created_after: slots[6].clone(),
            created_before: slots[7].clone(),
            status: slots[8].clone(),
        };
        let ghost fin = slots@.map_values(|o: Option<String>| opt_str_view(o));
        assert(cli_slots(cli) =~= with_fallbacks(fin, opt_str_view(env_url), opt_str_view(env_token)));
        Ok(cli)
    }

    /// Reads a command line without environment values.
    pub fn try_parse_from(args: &Vec<String>) -> (r: Result<Cli, CliError>)
        ensures
            match parse_command_line(strs_view(args@)) {
                Ok(s) => r is Ok && cli_slots(r->Ok_0) == with_fallbacks(s, None, None),
                Err(e) => r is Err && r->Err_0@ == e,
            },
    {
        Cli::try_parse_with_env(args, None, None)
    }

    /// Reads a command line that clap accepts, without environment values.
    pub fn parse_from(args: &Vec<String>) -> (c: Cli)
        requires
            parse_command_line(strs_view(args@)) is Ok,
        ensures
            cli_slots(c) == with_fallbacks(parse_command_line(strs_view(args@))->Ok_0, None, None),
    {
        match Cli::try_parse_from(args) {
            Ok(c) => c,
            Err(_) => Cli {
                url: String::new(),
                token: None,
                owner: None,
                name: None,
                repo_url: None,
                workflow_path: None,
                created_after: None,
                created_before: None,
                status: None,
            },
        }
    }
}

proof fn lemma_eq_index_plain(s: Seq<char>)
    requires
        forall|i: int| 0 <= i < s.len() ==> s[i] != '=',
    ensures
        eq_index(s) == s.len(),
    decreases s.len(),
{
    if s.len() > 0 {
        lemma_eq_index_plain(s.drop_first());
    }
}

proof fn lemma_eq_index_split(a: Seq<char>, b: Seq<char>)
    requires
        forall|i: int| 0 <= i < a.len() ==> a[i] != '=',
    ensures
        eq_index(a + seq!['='] + b) == a.len(),
    decreases a.len(),
{
    if a.len() > 0 {
        lemma_eq_index_split(a.drop_first(), b);
        assert((a + seq!['='] + b).drop_first() =~= a.drop_first() + seq!['='] + b);
    }
}

/// The long names have no `=`, are not `help`, and each selects its own option.
proof fn lemma_long_name(k: int)
    requires
        0 <= k < 9,
    ensures
        forall|i: int| 0 <= i < long_names()[k].len() ==> long_names()[k][i] != '=',
        long_names()[k] != "help"@,
        long_names()[k].len() > 0,
        long_slot(long_names()[k]) == Some(k),
{
    reveal_strlit("url");
    reveal_strlit("token");
    reveal_strlit("owner");
    reveal_strlit("name");
    reveal_strlit("repo-url");
    reveal_strlit("workflow-path");
    reveal_strlit("created-after");
    reveal_strlit("created-before");
    reveal_strlit("status");
    reveal_strlit("help");
    let n = long_names();
    assert(n[0] != n[1] && n[0] != n[2] && n[0] != n[3] && n[0] != n[4] && n[0] != n[5] && n[0] != n[6]
        && n[0] != n[7] && n[0] != n[8]) by {
        assert(n[0].len() == 3);
    }
    assert(n[1][0] == 't' && n[2][0] == 'o' && n[3][0] == 'n' && n[4][0] == 'r' && n[5][0] == 'w'
        && n[6][0] == 'c' && n[7][0] == 'c' && n[8][0] == 's');
    assert(n[6].len() == 13 && n[7].len() == 14);
    assert(n[0] != "help"@ && n[1] != "help"@ && n[2] != "help"@ && n[3] != "help"@ && n[4] != "help"@
        && n[5] != "help"@ && n[6] != "help"@ && n[7] != "help"@ && n[8] != "help"@) by {
        assert("help"@[0] == 'h');
    }
    reveal_with_fuel(long_slot_from, 10);
}

/// An option given as `--name value` and as `--name=value` sets the same value.
pub proof fn lemma_long_option_forms(prog: Seq<char>, k: int, v: Seq<char>)
    requires
        0 <= k < 9,
        !is_flag(v),
    ensures
        parse_command_line(seq![prog, "--"@ + long_names()[k], v]) == Ok::<Seq<Option<Seq<char>>>, CliErrorView>(no_options().update(k, Some(v))),
        parse_command_line(seq![prog, "--"@ + long_names()[k] + "="@ + v]) == Ok::<Seq<Option<Seq<char>>>, CliErrorView>(no_options().update(k, Some(v))),
{
    reveal_strlit("--");
    reveal_strlit("=");
    lemma_long_name(k);
    let name = long_names()[k];
    let a1 = "--"@ + name;
    let a2 = "--"@ + name + "="@ + v;
    assert(a1.skip(2) =~= name);
    assert(a2.skip(2) =~= name + seq!['='] + v);
    lemma_eq_index_plain(name);
    lemma_eq_index_split(name, v);
    assert(name.take(name.len() as int) =~= name);
    assert((name + seq!['='] + v).take(name.len() as int) =~= name);
    assert((name + seq!['='] + v).skip(name.len() as int + 1) =~= v);
    assert(a1 != "--"@) by {
        assert(a1.len() > 2);
    }
    assert(a2 != "--"@) by {
        assert(a2.len() > 2);
    }
    let args1 = seq![prog, a1, v];
    let args2 = seq![prog, a2];
    assert(no_options()[k] is None);
    assert(parse_step(args1, 1, no_options()) == Ok::<(int, Seq<Option<Seq<char>>>), CliErrorView>((3, no_options().update(k, Some(v)))));
    assert(parse_step(args2, 1, no_options()) == Ok::<(int, Seq<Option<Seq<char>>>), CliErrorView>((2, no_options().update(k, Some(v)))));
    reveal_with_fuel(parse_args, 3);
}

} // verus!
