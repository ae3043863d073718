//! The chart-release client: credential placeholder resolution and the
//! argument lists of the release manager's authenticate, register and
//! upgrade operations.
//!
//! A credential field is either a literal or holds a `${env.NAME}`
//! placeholder; the first placeholder decides, and its variable is looked up
//! in the environment snapshot.

use vstd::prelude::*;

use crate::CommandSpec;
use crate::env::{EnvEntry, EnvMap, env_lookup};
use crate::errors::DeployError;
use crate::model::{HelmChartRepo, Helmchart, ValueEntry, duplicate_values};
use crate::strings::{opt_view, spec_escape_commas, escape_commas, strs_view, concat3};

verus! {

/// A character that may stand in an environment-variable name:
/// a letter, a digit or an underscore.
pub open spec fn is_word_char(c: char) -> bool {
    ('a' <= c && c <= 'z') || ('A' <= c && c <= 'Z') || ('0' <= c && c <= '9') || c == '_'
}

/// The first index at or after `i` holding a non-word character, or the
/// length of `s` if word characters run to the end.
pub open spec fn word_end(s: Seq<char>, i: int) -> int
    decreases s.len() - i,
{
    if i < 0 || i >= s.len() {
        i
    } else if is_word_char(s[i]) {
        word_end(s, i + 1)
    } else {
        i
    }
}

/// Whether a `${env.NAME}` placeholder starts at index `i` of `s`: the six
/// characters `${env.`, then at least one word character, then `}`.
pub open spec fn placeholder_at(s: Seq<char>, i: int) -> bool {
    &&& 0 <= i
    &&& i + 6 <= s.len()
    &&& s[i] == '$'
    &&& s[i + 1] == '{'
    &&& s[i + 2] == 'e'
    &&& s[i + 3] == 'n'
    &&& s[i + 4] == 'v'
    &&& s[i + 5] == '.'
    &&& word_end(s, i + 6) > i + 6
    &&& word_end(s, i + 6) < s.len()
    &&& s[word_end(s, i + 6)] == '}'
}

/// The variable name of the placeholder starting at index `i`.
pub open spec fn placeholder_name_at(s: Seq<char>, i: int) -> Seq<char> {
    s.subrange(i + 6, word_end(s, i + 6))
}

/// The name of the leftmost placeholder at or after index `i`, or `None`.
pub open spec fn first_placeholder_from(s: Seq<char>, i: int) -> Option<Seq<char>>
    decreases s.len() - i,
{
    if i < 0 || i >= s.len() {
        None
    } else if placeholder_at(s, i) {
        Some(placeholder_name_at(s, i))
    } else {
        first_placeholder_from(s, i + 1)
    }
}

/// The name of the leftmost placeholder of `s`, or `None` if `s` is a
/// literal.
pub open spec fn first_placeholder(s: Seq<char>) -> Option<Seq<char>> {
    first_placeholder_from(s, 0)
}

/// What resolving the field `input` against the snapshot `env` yields:
/// the input unchanged for a literal, the variable's value for a resolvable
/// placeholder, and the missing variable's name as the error otherwise.
pub open spec fn spec_resolve(env: Seq<EnvEntry>, input: Seq<char>) -> Result<Seq<char>, Seq<char>> {
    match first_placeholder(input) {
        None => Ok(input),
        Some(name) => match env_lookup(env, name) {
            Some(v) => Ok(v),
            None => Err(name),
        },
    }
}

/// The credential arguments `--username U --password P` that precede a login,
/// present exactly when the repository configures both credentials; the error
/// is the name of a missing environment variable.
pub open spec fn spec_initial_arguments(repo: HelmChartRepo, env: Seq<EnvEntry>) -> Result<
    Seq<Seq<char>>,
    Seq<char>,
> {
    if repo.username is Some && repo.password is Some {
        match spec_resolve(env, repo.username.unwrap()@) {
            Err(n) => Err(n),
            Ok(ru) => match spec_resolve(env, repo.password.unwrap()@) {
                Err(n) => Err(n),
                Ok(rp) => Ok(seq!["--username"@, ru, "--password"@, rp]),
            },
        }
    } else {
        Ok(seq![])
    }
}

/// Whether `entries` holds an override for `key`.
pub open spec fn key_in(entries: Seq<ValueEntry>, key: Seq<char>) -> bool {
    exists|j: int| 0 <= j < entries.len() && entries[j].key@ == key
}

/// The entries of `defaults` whose key `overrides` does not override, in
/// order.
pub open spec fn spec_keep_unoverridden(defaults: Seq<ValueEntry>, overrides: Seq<ValueEntry>) -> Seq<
    ValueEntry,
>
    decreases defaults.len(),
{
    if defaults.len() == 0 {
        seq![]
    } else {
        spec_keep_unoverridden(defaults.drop_last(), overrides) + (if key_in(
            overrides,
            defaults.last().key@,
        ) {
            seq![]
        } else {
            seq![defaults.last()]
        })
    }
}

/// The merged override list of a release: the defaults that the release does
/// not override, in order, followed by the release's own overrides.
pub open spec fn spec_merge(defaults: Seq<ValueEntry>, overrides: Seq<ValueEntry>) -> Seq<
    ValueEntry,
> {
    spec_keep_unoverridden(defaults, overrides) + overrides
}

/// The `key=value` text of one `--set` argument: the value resolved against
/// the snapshot, its commas escaped.
pub open spec fn spec_set_arg(env: Seq<EnvEntry>, e: ValueEntry) -> Result<Seq<char>, Seq<char>> {
    match spec_resolve(env, e.value@) {
        Err(n) => Err(n),
        Ok(rv) => Ok(e.key@ + "="@ + spec_escape_commas(rv)),
    }
}

/// The `--set key=value` argument pairs for `entries`, in order; the leftmost
/// unresolvable value decides the error.
pub open spec fn spec_set_args(env: Seq<EnvEntry>, entries: Seq<ValueEntry>) -> Result<
    Seq<Seq<char>>,
    Seq<char>,
>
    decreases entries.len(),
{
    if entries.len() == 0 {
        Ok(seq![])
    } else {
        match spec_set_args(env, entries.drop_last()) {
            Err(n) => Err(n),
            Ok(pre) => match spec_set_arg(env, entries.last()) {
                Err(n) => Err(n),
                Ok(a) => Ok(pre + seq!["--set"@, a]),
            },
        }
    }
}

/// The whole argument list of an authenticate call: `registry login <url>`,
/// then the credential arguments.
pub open spec fn spec_login_args(repo: HelmChartRepo, env: Seq<EnvEntry>) -> Result<
    Seq<Seq<char>>,
    Seq<char>,
> {
    match spec_initial_arguments(repo, env) {
        Err(n) => Err(n),
        Ok(cred) => Ok(seq!["registry"@, "login"@, repo.url@] + cred),
    }
}

/// The whole argument list of a register call:
/// `repo add --force-update <name> <url>`.
pub open spec fn spec_register_args(repo: HelmChartRepo) -> Seq<Seq<char>> {
    seq!["repo"@, "add"@, "--force-update"@, repo.name@, repo.url@]
}

/// The whole argument list of an install-or-upgrade call:
/// `upgrade --install --wait`, the `--set` pairs of the merged overrides,
/// then the release name and its `repository/chart` reference.
pub open spec fn spec_upgrade_args(
    defaults: Seq<ValueEntry>,
    env: Seq<EnvEntry>,
    chart: Helmchart,
) -> Result<Seq<Seq<char>>, Seq<char>> {
    match spec_set_args(env, spec_merge(defaults, chart.values@)) {
        Err(n) => Err(n),
        Ok(sets) => Ok(
            seq!["upgrade"@, "--install"@, "--wait"@] + sets + seq![
                chart.name@,
                chart.helm_chart_repo@ + "/"@ + chart.name@,
            ],
        ),
    }
}

/// Resolving a field that holds no placeholder returns it unchanged,
/// whatever the environment holds.
pub proof fn lemma_literal_resolves_unchanged(env: Seq<EnvEntry>, input: Seq<char>)
    requires
        first_placeholder(input) is None,
    ensures
        spec_resolve(env, input) == Ok::<Seq<char>, Seq<char>>(input),
{
}

/// The client of the chart-release manager for one repository: it owns the
/// repository, the default overrides, the binary path and the environment
/// snapshot, and builds each operation's argument list.
pub struct Helm {
    pub helm_chart_repo: HelmChartRepo,
    pub default_values: Vec<ValueEntry>,
    pub helm_binary_path: String,
    pub env: EnvMap,
}

/// Whether `c` may stand in an environment-variable name.
fn word_char(c: char) -> (r: bool)
    ensures
        r == is_word_char(c),
{
    ('a' <= c && c <= 'z') || ('A' <= c && c <= 'Z') || ('0' <= c && c <= '9') || c == '_'
}

/// The name of the leftmost `${env.NAME}` placeholder of `s`, or `None` if
/// `s` holds none.
pub fn find_placeholder(s: &str) -> (r: Option<String>)
    ensures
        opt_view(r) == first_placeholder(s@),
{
    let len = s.unicode_len();
    let mut i: usize = 0;
    while i < len
        invariant
            i <= len,
            len == s@.len(),
            first_placeholder(s@) == first_placeholder_from(s@, i as int),
        decreases len - i,
    {
        if len >= 6 && i <= len - 6 && s.get_char(i) == '$' && s.get_char(i + 1) == '{'
            && s.get_char(i + 2) == 'e' && s.get_char(i + 3) == 'n' && s.get_char(i + 4) == 'v'
            && s.get_char(i + 5) == '.' {
            let mut e: usize = i + 6;
            while e < len && word_char(s.get_char(e))
                invariant
                    i + 6 <= e <= len,
                    len == s@.len(),
                    word_end(s@, i as int + 6) == word_end(s@, e as int),
                decreases len - e,
            {
                e = e + 1;
            }
            assert(word_end(s@, i as int + 6) == e as int);
            if e > i + 6 && e < len && s.get_char(e) == '}' {
                assert(placeholder_at(s@, i as int));
                let name = s.substring_char(i + 6, e);
                return Some(name.to_owned());
            }
            assert(!placeholder_at(s@, i as int));
        } else {
            assert(!placeholder_at(s@, i as int));
        }
        i = i + 1;
    }
    None
}

/// Whether `entries` holds an override for `key`.
pub fn contains_key(entries: &Vec<ValueEntry>, key: &String) -> (r: bool)
    ensures
        r == key_in(entries@, key@),
{
    let mut i: usize = 0;
    while i < entries.len()
        invariant
            i <= entries@.len(),
            forall|j: int| 0 <= j < i ==> entries@[j].key@ != key@,
        decreases entries@.len() - i,
    {
        if entries[i].key == *key {
            assert(key_in(entries@, key@)) by {
                assert(entries@[i as int].key@ == key@);
            }
            return true;
        }
        i = i + 1;
    }
    false
}

/// The merged override list: the defaults that `overrides` does not
/// override, in order, then all of `overrides`.
pub fn merge_values(defaults: &Vec<ValueEntry>, overrides: &Vec<ValueEntry>) -> (r: Vec<ValueEntry>)
    ensures
        r@ == spec_merge(defaults@, overrides@),
{
    let mut out: Vec<ValueEntry> = Vec::new();
    let mut i: usize = 0;
    while i < defaults.len()
        invariant
            i <= defaults@.len(),
            out@ == spec_keep_unoverridden(defaults@.take(i as int), overrides@),
        decreases defaults@.len() - i,
    {
        proof {
            assert(defaults@.take(i as int + 1).drop_last() =~= defaults@.take(i as int));
            assert(defaults@.take(i as int + 1).last() == defaults@[i as int]);
        }
        if !contains_key(overrides, &defaults[i].key) {
            out.push(defaults[i].duplicate());
            assert(out@ =~= spec_keep_unoverridden(defaults@.take(i as int + 1), overrides@));
        } else {
            assert(out@ =~= spec_keep_unoverridden(defaults@.take(i as int + 1), overrides@));
        }
        i = i + 1;
    }
    proof {
        assert(defaults@.take(defaults@.len() as int) =~= defaults@);
    }
    let mut j: usize = 0;
    while j < overrides.len()
        invariant
            j <= overrides@.len(),
            out@ == spec_keep_unoverridden(defaults@, overrides@) + overrides@.take(j as int),
        decreases overrides@.len() - j,
    {
        out.push(overrides[j].duplicate());
        proof {
            assert(overrides@.take(j as int + 1) =~= overrides@.take(j as int).push(
                overrides@[j as int],
            ));
            assert(spec_keep_unoverridden(defaults@, overrides@) + overrides@.take(j as int + 1)
                =~= (spec_keep_unoverridden(defaults@, overrides@) + overrides@.take(
                j as int,
            )).push(overrides@[j as int]));
        }
        j = j + 1;
    }
    proof {
        assert(overrides@.take(overrides@.len() as int) =~= overrides@);
    }
    out
}

/// The leftmost unresolvable entry decides the whole list's error.
proof fn lemma_set_args_err(env: Seq<EnvEntry>, entries: Seq<ValueEntry>, i: int, n: Seq<char>)
    requires
        0 <= i < entries.len(),
        spec_set_args(env, entries.take(i)) is Ok,
        spec_set_arg(env, entries[i]) == Err::<Seq<char>, Seq<char>>(n),
    ensures
        spec_set_args(env, entries) == Err::<Seq<Seq<char>>, Seq<char>>(n),
    decreases entries.len(),
{
    if i == entries.len() - 1 {
        assert(entries.take(i) =~= entries.drop_last());
        assert(entries.last() == entries[i]);
    } else {
        assert(entries.drop_last().take(i) =~= entries.take(i));
        assert(entries.drop_last()[i] == entries[i]);
        lemma_set_args_err(env, entries.drop_last(), i, n);
    }
}

impl Helm {
    /// A client over the given repository, defaults, binary path and
    /// environment snapshot.
    pub fn new(
        helm_chart_repo: &HelmChartRepo,
        default_values: &Vec<ValueEntry>,
        helm_binary_path: &String,
        env: &EnvMap,
    ) -> (r: Self)
        ensures
            r.helm_chart_repo == *helm_chart_repo,
            r.default_values@ == default_values@,
            r.helm_binary_path == *helm_binary_path,
            r.env.entries@ == env.entries@,
    {
        Helm {
            helm_chart_repo: helm_chart_repo.duplicate(),
            default_values: duplicate_values(default_values),
            helm_binary_path: helm_binary_path.clone(),
            env: env.duplicate(),
        }
    }

    /// The variable name of the leftmost placeholder of `input`, if any.
    pub fn extract_env_var_name(&self, input: &str) -> (r: Option<String>)
        ensures
            opt_view(r) == first_placeholder(input@),
    {
        find_placeholder(input)
    }

    /// The snapshot value of the leftmost placeholder of `input`: `None` for
    /// a literal, the value for a resolvable placeholder, and the missing
    /// variable's name as the error otherwise.
    pub fn replace_with_env_var(&self, input: &str) -> (r: Result<Option<String>, DeployError>)
        ensures
            match r {
                Ok(o) => match first_placeholder(input@) {
                    None => o is None,
                    Some(name) => opt_view(o) == env_lookup(self.env.entries@, name)
                        && env_lookup(self.env.entries@, name) is Some,
                },
                Err(e) => e matches DeployError::EnvVarMissing { name } && Some(name@)
                    == first_placeholder(input@) && env_lookup(self.env.entries@, name@) is None,
            },
    {
        match self.extract_env_var_name(input) {
            Some(env_var_name) => match self.env.get(&env_var_name) {
                Some(value) => Ok(Some(value)),
                None => Err(DeployError::EnvVarMissing { name: env_var_name }),
            },
            None => Ok(None),
        }
    }

    /// Resolves the field `input`: a literal passes through unchanged, a
    /// placeholder becomes its variable's snapshot value, and a placeholder
    /// over a missing variable is the error naming that variable.
    pub fn resolve_value(&self, input: &str) -> (r: Result<String, DeployError>)
        ensures
            match r {
                Ok(v) => spec_resolve(self.env.entries@, input@) == Ok::<Seq<char>, Seq<char>>(v@),
                Err(e) => e matches DeployError::EnvVarMissing { name } && spec_resolve(
                    self.env.entries@,
                    input@,
                ) == Err::<Seq<char>, Seq<char>>(name@),
            },
    {
        match self.replace_with_env_var(input) {
            Ok(Some(v)) => Ok(v),
            Ok(None) => Ok(input.to_owned()),
            Err(e) => Err(e),
        }
    }

    /// The credential arguments that precede each authenticate call:
    /// `--username U --password P` with both fields resolved, present exactly
    /// when the repository configures both credentials.
    pub fn initial_arguments(&self) -> (r: Result<Vec<String>, DeployError>)
        ensures
            match r {
                Ok(args) => spec_initial_arguments(self.helm_chart_repo, self.env.entries@)
                    == Ok::<Seq<Seq<char>>, Seq<char>>(strs_view(args@)),
                Err(e) => e matches DeployError::EnvVarMissing { name }
                    && spec_initial_arguments(self.helm_chart_repo, self.env.entries@)
                    == Err::<Seq<Seq<char>>, Seq<char>>(name@),
            },
    {
        let mut arguments: Vec<String> = Vec::new();
        match (&self.helm_chart_repo.username, &self.helm_chart_repo.password) {
            (Some(username), Some(password)) => {
                let resolved_username = match self.resolve_value(username.as_str()) {
                    Ok(v) => v,
                    Err(e) => {
                        return Err(e);
                    },
                };
                let resolved_password = match self.resolve_value(password.as_str()) {
                    Ok(v) => v,
                    Err(e) => {
                        return Err(e);
                    },
                };
                arguments.push("--username".to_owned());
                arguments.push(resolved_username);
                arguments.push("--password".to_owned());
                arguments.push(resolved_password);
                proof {
                    assert(strs_view(arguments@) =~= seq![
                        "--username"@,
                        arguments@[1]@,
                        "--password"@,
                        arguments@[3]@,
                    ]);
                }
                Ok(arguments)
            },
            _ => {
                proof {
                    assert(strs_view(arguments@) =~= Seq::<Seq<char>>::empty());
                }
                Ok(arguments)
            },
        }
    }

    /// The authenticate invocation for this repository, or `None` for a
    /// credential-less repository, which counts as already logged in.
    pub fn login_command(&self) -> (r: Result<Option<CommandSpec>, DeployError>)
        ensures
            match r {
                Ok(o) => match o {
                    None => self.helm_chart_repo.username is None
                        && self.helm_chart_repo.password is None,
                    Some(cmd) => {
                        &&& !(self.helm_chart_repo.username is None
                            && self.helm_chart_repo.password is None)
                        &&& cmd.program@ == self.helm_binary_path@
                        &&& spec_login_args(self.helm_chart_repo, self.env.entries@) == Ok::<
                            Seq<Seq<char>>,
                            Seq<char>,
                        >(cmd.args_view())
                    },
                },
                Err(e) => {
                    &&& e matches DeployError::EnvVarMissing { name: n } && spec_login_args(
                        self.helm_chart_repo,
                        self.env.entries@,
                    ) == Err::<Seq<Seq<char>>, Seq<char>>(n@)
                    &&& !(self.helm_chart_repo.username is None
                        && self.helm_chart_repo.password is None)
                },
            },
    {
        if self.helm_chart_repo.username.is_none() && self.helm_chart_repo.password.is_none() {
            return Ok(None);
        }
        let cred = match self.initial_arguments() {
            Ok(c) => c,
            Err(e) => {
                return Err(e);
            },
        };
        let ghost cred_view = strs_view(cred@);
        let mut args: Vec<String> = Vec::new();
        args.push("registry".to_owned());
        args.push("login".to_owned());
        args.push(self.helm_chart_repo.url.clone());
        let mut tail = cred;
        args.append(&mut tail);
        proof {
            assert(strs_view(args@) =~= seq![
                "registry"@,
                "login"@,
                self.helm_chart_repo.url@,
            ] + cred_view);
        }
        Ok(Some(CommandSpec { program: self.helm_binary_path.clone(), args }))
    }

    /// The register invocation for this repository:
    /// `repo add --force-update <name> <url>`.
    pub fn add_repo_command(&self) -> (r: CommandSpec)
        ensures
            r.program@ == self.helm_binary_path@,
            r.args_view() == spec_register_args(self.helm_chart_repo),
    {
        let mut args: Vec<String> = Vec::new();
        args.push("repo".to_owned());
        args.push("add".to_owned());
        args.push("--force-update".to_owned());
        args.push(self.helm_chart_repo.name.clone());
        args.push(self.helm_chart_repo.url.clone());
        let r = CommandSpec { program: self.helm_binary_path.clone(), args };
        proof {
            assert(r.args_view() =~= seq![
                "repo"@,
                "add"@,
                "--force-update"@,
                self.helm_chart_repo.name@,
                self.helm_chart_repo.url@,
            ]);
        }
        r
    }

    /// The `--set key=value` pairs for `merged`, values resolved and commas
    /// escaped; the leftmost unresolvable value decides the error.
    fn build_set_args(&self, merged: &Vec<ValueEntry>) -> (r: Result<Vec<String>, DeployError>)
        ensures
            match r {
                Ok(args) => spec_set_args(self.env.entries@, merged@) == Ok::<
                    Seq<Seq<char>>,
                    Seq<char>,
                >(strs_view(args@)),
                Err(e) => e matches DeployError::EnvVarMissing { name } && spec_set_args(
                    self.env.entries@,
                    merged@,
                ) == Err::<Seq<Seq<char>>, Seq<char>>(name@),
            },
    {
        let mut args: Vec<String> = Vec::new();
        proof {
            assert(merged@.take(0) =~= Seq::<ValueEntry>::empty());
            assert(strs_view(args@) =~= Seq::<Seq<char>>::empty());
            assert(spec_set_args(self.env.entries@, merged@.take(0)) == Ok::<
                Seq<Seq<char>>,
                Seq<char>,
            >(strs_view(args@)));
        }
        let mut i: usize = 0;
        while i < merged.len()
            invariant
                i <= merged@.len(),
                spec_set_args(self.env.entries@, merged@.take(i as int)) == Ok::<
                    Seq<Seq<char>>,
                    Seq<char>,
                >(strs_view(args@)),
            decreases merged@.len() - i,
        {
            let resolved = match self.resolve_value(merged[i].value.as_str()) {
                Ok(v) => v,
                Err(e) => {
                    proof {
                        let n = e->EnvVarMissing_name;
                        lemma_set_args_err(self.env.entries@, merged@, i as int, n@);
                    }
                    return Err(e);
                },
            };
            let escaped = escape_commas(resolved.as_str());
            let mut kv = merged[i].key.clone();
            kv.append("=");
            kv.append(escaped.as_str());
            let ghost kv_view = kv@;
            let ghost old_args = args@;
            proof {
                assert(spec_set_arg(self.env.entries@, merged@[i as int]) == Ok::<
                    Seq<char>,
                    Seq<char>,
                >(kv_view));
            }
            args.push("--set".to_owned());
            args.push(kv);
            proof {
                assert(merged@.take(i as int + 1).drop_last() =~= merged@.take(i as int));
                assert(merged@.take(i as int + 1).last() == merged@[i as int]);
                assert(strs_view(args@) =~= strs_view(old_args) + seq!["--set"@, kv_view]);
            }
            i = i + 1;
        }
        proof {
            assert(merged@.take(merged@.len() as int) =~= merged@);
        }
        Ok(args)
    }

    /// The install-or-upgrade invocation for `helmchart` against this
    /// repository, with the merged overrides resolved and escaped.
    pub fn upgrade_command(&self, helmchart: &Helmchart) -> (r: Result<CommandSpec, DeployError>)
        ensures
            match r {
                Ok(cmd) => cmd.program@ == self.helm_binary_path@ && spec_upgrade_args(
                    self.default_values@,
                    self.env.entries@,
                    *helmchart,
                ) == Ok::<Seq<Seq<char>>, Seq<char>>(cmd.args_view()),
                Err(e) => e matches DeployError::EnvVarMissing { name } && spec_upgrade_args(
                    self.default_values@,
                    self.env.entries@,
                    *helmchart,
                ) == Err::<Seq<Seq<char>>, Seq<char>>(name@),
            },
    {
        let merged = merge_values(&self.default_values, &helmchart.values);
        let sets = match self.build_set_args(&merged) {
            Ok(s) => s,
            Err(e) => {
                return Err(e);
            },
        };
        let ghost sets_view = strs_view(sets@);
        let mut args: Vec<String> = Vec::new();
        args.push("upgrade".to_owned());
        args.push("--install".to_owned());
        args.push("--wait".to_owned());
        let mut tail = sets;
        args.append(&mut tail);
        args.push(helmchart.name.clone());
        let reference = concat3(
            helmchart.helm_chart_repo.as_str(),
            "/",
            helmchart.name.as_str(),
        );
        args.push(reference);
        let r = CommandSpec { program: self.helm_binary_path.clone(), args };
        proof {
            assert(r.args_view() =~= seq!["upgrade"@, "--install"@, "--wait"@] + sets_view + seq![
                helmchart.name@,
                helmchart.helm_chart_repo@ + "/"@ + helmchart.name@,
            ]);
        }
        Ok(r)
    }
}

} // verus!
