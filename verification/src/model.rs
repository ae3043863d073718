//! Configuration data: chart repositories, workloads and cluster settings.
//!
//! Every type here is immutable after configuration load; the rest of the
//! library only reads it.

use vstd::prelude::*;

verus! {

/// A named, URL-addressed source of installable charts, with optional
/// credentials.  Each credential field is either a literal or a
/// `${env.NAME}` placeholder resolved at deployment time.
pub struct HelmChartRepo {
    pub name: String,
    pub url: String,
    pub username: Option<String>,
    pub password: Option<String>,
}

/// A declared unit to deploy: one release of one chart, referencing its
/// repository by name, optionally exposed through local tunnels on `ports`.
pub struct Helmchart {
    pub helm_chart_repo: String,
    pub name: String,
    pub ports: Vec<u16>,
    /// Per-release `key=value` overrides handed to the release manager.
    pub values: Vec<ValueEntry>,
}

/// One `key=value` override for a release.
pub struct ValueEntry {
    pub key: String,
    pub value: String,
}

/// Settings for the local cluster manager.
pub struct Minikube {
    pub cpus: Option<u8>,
    pub memory: Option<u16>,
    pub addons: Vec<String>,
}

/// The loaded configuration: cluster settings, repositories, workloads and
/// default `key=value` overrides applied to every release.
pub struct Configuration {
    pub minikube: Option<Minikube>,
    pub helm_chart_repo: Option<Vec<HelmChartRepo>>,
    pub helmchart: Option<Vec<Helmchart>>,
    pub default_values: Vec<ValueEntry>,
}

impl HelmChartRepo {
    /// A field-for-field copy.
    pub fn duplicate(&self) -> (r: Self)
        ensures
            r == *self,
    {
        HelmChartRepo {
            name: self.name.clone(),
            url: self.url.clone(),
            username: clone_opt_string(&self.username),
            password: clone_opt_string(&self.password),
        }
    }
}

impl ValueEntry {
    /// A field-for-field copy.
    pub fn duplicate(&self) -> (r: Self)
        ensures
            r == *self,
    {
        ValueEntry { key: self.key.clone(), value: self.value.clone() }
    }
}

impl Helmchart {
    /// A field-for-field copy.
    pub fn duplicate(&self) -> (r: Self)
        ensures
            r.helm_chart_repo == self.helm_chart_repo,
            r.name == self.name,
            r.ports@ == self.ports@,
            r.values@ == self.values@,
    {
        let mut ports: Vec<u16> = Vec::new();
        let mut i: usize = 0;
        while i < self.ports.len()
            invariant
                i <= self.ports.len(),
                ports@ == self.ports@.take(i as int),
            decreases self.ports.len() - i,
        {
            ports.push(self.ports[i]);
            proof {
                assert(self.ports@.take(i as int + 1) =~= self.ports@.take(i as int).push(
                    self.ports@[i as int],
                ));
            }
            i = i + 1;
        }
        proof {
            assert(self.ports@.take(self.ports@.len() as int) =~= self.ports@);
        }
        let mut values: Vec<ValueEntry> = Vec::new();
        let mut j: usize = 0;
        while j < self.values.len()
            invariant
                j <= self.values.len(),
                values@ == self.values@.take(j as int),
            decreases self.values.len() - j,
        {
            values.push(self.values[j].duplicate());
            proof {
                assert(self.values@.take(j as int + 1) =~= self.values@.take(j as int).push(
                    self.values@[j as int],
                ));
            }
            j = j + 1;
        }
        proof {
            assert(self.values@.take(self.values@.len() as int) =~= self.values@);
        }
        Helmchart {
            helm_chart_repo: self.helm_chart_repo.clone(),
            name: self.name.clone(),
            ports,
            values,
        }
    }
}

/// Whether two workloads hold the same data.
pub open spec fn chart_eq(a: Helmchart, b: Helmchart) -> bool {
    &&& a.helm_chart_repo@ == b.helm_chart_repo@
    &&& a.name@ == b.name@
    &&& a.ports@ == b.ports@
    &&& a.values@ == b.values@
}

/// Whether two workload lists hold the same data, element for element.
pub open spec fn charts_eq(a: Seq<Helmchart>, b: Seq<Helmchart>) -> bool {
    a.len() == b.len() && forall|i: int| 0 <= i < a.len() ==> chart_eq(a[i], b[i])
}

/// Whether two cluster settings hold the same data.
pub open spec fn minikube_eq(a: Minikube, b: Minikube) -> bool {
    a.cpus == b.cpus && a.memory == b.memory && a.addons@ == b.addons@
}

/// Whether two configurations hold the same data.
pub open spec fn config_eq(a: Configuration, b: Configuration) -> bool {
    &&& match a.minikube {
        Some(x) => b.minikube matches Some(y) && minikube_eq(x, y),
        None => b.minikube is None,
    }
    &&& match a.helm_chart_repo {
        Some(x) => b.helm_chart_repo matches Some(y) && x@ == y@,
        None => b.helm_chart_repo is None,
    }
    &&& match a.helmchart {
        Some(x) => b.helmchart matches Some(y) && charts_eq(x@, y@),
        None => b.helmchart is None,
    }
    &&& a.default_values@ == b.default_values@
}

impl Minikube {
    /// A field-for-field copy.
    pub fn duplicate(&self) -> (r: Self)
        ensures
            minikube_eq(r, *self),
    {
        Minikube {
            cpus: self.cpus,
            memory: self.memory,
            addons: duplicate_strings(&self.addons),
        }
    }
}

impl Configuration {
    /// A field-for-field copy.
    pub fn duplicate(&self) -> (r: Self)
        ensures
            config_eq(r, *self),
    {
        let minikube = match &self.minikube {
            Some(m) => Some(m.duplicate()),
            None => None,
        };
        let helm_chart_repo = match &self.helm_chart_repo {
            Some(repos) => Some(duplicate_repos(repos)),
            None => None,
        };
        let helmchart = match &self.helmchart {
            Some(charts) => Some(duplicate_charts(charts)),
            None => None,
        };
        Configuration {
            minikube,
            helm_chart_repo,
            helmchart,
            default_values: duplicate_values(&self.default_values),
        }
    }
}

/// A field-for-field copy of a list of strings.
pub fn duplicate_strings(v: &Vec<String>) -> (r: Vec<String>)
    ensures
        r@ == v@,
{
    let mut out: Vec<String> = Vec::new();
    let mut i: usize = 0;
    while i < v.len()
        invariant
            i <= v@.len(),
            out@ == v@.take(i as int),
        decreases v@.len() - i,
    {
        out.push(v[i].clone());
        proof {
            assert(v@.take(i as int + 1) =~= v@.take(i as int).push(v@[i as int]));
        }
        i = i + 1;
    }
    proof {
        assert(v@.take(v@.len() as int) =~= v@);
    }
    out
}

/// A field-for-field copy of a repository list.
pub fn duplicate_repos(v: &Vec<HelmChartRepo>) -> (r: Vec<HelmChartRepo>)
    ensures
        r@ == v@,
{
    let mut out: Vec<HelmChartRepo> = Vec::new();
    let mut i: usize = 0;
    while i < v.len()
        invariant
            i <= v@.len(),
            out@ == v@.take(i as int),
        decreases v@.len() - i,
    {
        out.push(v[i].duplicate());
        proof {
            assert(v@.take(i as int + 1) =~= v@.take(i as int).push(v@[i as int]));
        }
        i = i + 1;
    }
    proof {
        assert(v@.take(v@.len() as int) =~= v@);
    }
    out
}

/// A field-for-field copy of a workload list.
pub fn duplicate_charts(v: &Vec<Helmchart>) -> (r: Vec<Helmchart>)
    ensures
        charts_eq(r@, v@),
{
    let mut out: Vec<Helmchart> = Vec::new();
    let mut i: usize = 0;
    while i < v.len()
        invariant
            i <= v@.len(),
            out@.len() == i,
            forall|j: int| 0 <= j < i ==> chart_eq(out@[j], v@[j]),
        decreases v@.len() - i,
    {
        out.push(v[i].duplicate());
        i = i + 1;
    }
    out
}

/// A field-for-field copy of a list of `key=value` overrides.
pub fn duplicate_values(v: &Vec<ValueEntry>) -> (r: Vec<ValueEntry>)
    ensures
        r@ == v@,
{
    let mut out: Vec<ValueEntry> = Vec::new();
    let mut i: usize = 0;
    while i < v.len()
        invariant
            i <= v@.len(),
            out@ == v@.take(i as int),
        decreases v@.len() - i,
    {
        out.push(v[i].duplicate());
        proof {
            assert(v@.take(i as int + 1) =~= v@.take(i as int).push(v@[i as int]));
        }
        i = i + 1;
    }
    proof {
        assert(v@.take(v@.len() as int) =~= v@);
    }
    out
}

/// A field-for-field copy of an optional string.
pub fn clone_opt_string(o: &Option<String>) -> (r: Option<String>)
    ensures
        r == *o,
{
    match o {
        Some(s) => Some(s.clone()),
        None => None,
    }
}

} // verus!
