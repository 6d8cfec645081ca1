//! Launch configurations kept by id, the built-in templates, and the
//! command line assembled from them.

use vstd::prelude::*;
use vstd::string::*;
use crate::launch_params::{
    all_args_of, current_time_ms, generate_id, is_builtin_template, merge_launch_args,
    merged_args, same_config, same_template, texts_of, BrowserLaunchConfig, LaunchParameter,
    ParameterTemplate, SecurityValidation, TemplateCategory,
};
use crate::registry::{key_at, Registry};
use crate::text::same_text;

verus! {

/// Launch configurations by id, and the built-in templates.
pub struct ParameterManager {
    cached_configs: Registry<BrowserLaunchConfig>,
    builtin_templates: Vec<ParameterTemplate>,
}

/// Two optional owners are the same browser, or both global.
pub open spec fn same_owner(a: Option<String>, b: Option<String>) -> bool {
    match (a, b) {
        (None, None) => true,
        (Some(x), Some(y)) => x@ == y@,
        _ => false,
    }
}

/// A configuration applies to a browser: it is global or that browser's.
pub open spec fn applies_to(c: BrowserLaunchConfig, browser_id: Seq<char>) -> bool {
    match c.browser_id {
        None => true,
        Some(b) => b@ == browser_id,
    }
}

/// A configuration no longer default where it was the default of `owner`.
pub open spec fn cleared(c: BrowserLaunchConfig, owner: Option<String>) -> BrowserLaunchConfig {
    if c.is_default && same_owner(c.browser_id, owner) {
        BrowserLaunchConfig { is_default: false, ..c }
    } else {
        c
    }
}

/// Every configuration of `m` with the default of `owner` cleared.
pub open spec fn cleared_all(m: Map<Seq<char>, BrowserLaunchConfig>, owner: Option<String>) -> Map<Seq<char>, BrowserLaunchConfig> {
    Map::new(|k: Seq<char>| m.contains_key(k), |k: Seq<char>| cleared(m[k], owner))
}

/// `r` lists, each once, copies of the configurations of `m` that satisfy
/// `keep`.
pub open spec fn lists_configs(
    r: Seq<BrowserLaunchConfig>,
    m: Map<Seq<char>, BrowserLaunchConfig>,
    keep: spec_fn(BrowserLaunchConfig) -> bool,
) -> bool {
    &&& forall|i: int|
        0 <= i < r.len() ==> m.contains_key(#[trigger] r[i].id@) && same_config(r[i], m[r[i].id@]) && keep(
            m[r[i].id@],
        )
    &&& forall|i: int, j: int| 0 <= i < j < r.len() ==> r[i].id@ != r[j].id@
    &&& forall|k: Seq<char>| #[trigger] m.contains_key(k) && keep(m[k]) ==> exists|i: int| 0 <= i < r.len() && r[i].id@ == k
}

/// The configurations of `m` named in `ids` that exist and are enabled, in
/// the order of `ids`.
pub open spec fn selected_by_ids(m: Map<Seq<char>, BrowserLaunchConfig>, ids: Seq<String>) -> Seq<BrowserLaunchConfig>
    decreases ids.len(),
{
    if ids.len() == 0 {
        Seq::empty()
    } else {
        let rest = selected_by_ids(m, ids.drop_last());
        let k = ids.last()@;
        if m.contains_key(k) && m[k].is_enabled {
            rest.push(m[k])
        } else {
            rest
        }
    }
}

/// Two sequences of configurations agree pointwise on their values.
pub open spec fn same_configs(a: Seq<BrowserLaunchConfig>, b: Seq<BrowserLaunchConfig>) -> bool {
    a.len() == b.len() && forall|i: int| 0 <= i < a.len() ==> same_config(#[trigger] a[i], b[i])
}

proof fn lemma_same_configs_same_args(a: Seq<BrowserLaunchConfig>, b: Seq<BrowserLaunchConfig>)
    requires
        same_configs(a, b),
    ensures
        all_args_of(a) == all_args_of(b),
    decreases a.len(),
{
    if a.len() > 0 {
        assert(same_config(a[a.len() - 1], b[b.len() - 1]));
        lemma_same_configs_same_args(a.drop_last(), b.drop_last());
    }
}

fn same_owner_exec(a: &Option<String>, b: &Option<String>) -> (r: bool)
    ensures
        r == same_owner(*a, *b),
{
    match (a, b) {
        (None, None) => true,
        (Some(x), Some(y)) => same_text(x.as_str(), y.as_str()),
        _ => false,
    }
}

fn applies_exec(c: &BrowserLaunchConfig, browser_id: &str) -> (r: bool)
    ensures
        r == applies_to(*c, browser_id@),
{
    match &c.browser_id {
        None => true,
        Some(b) => same_text(b.as_str(), browser_id),
    }
}

impl ParameterManager {
    /// Configurations by id.
    pub closed spec fn configs(&self) -> Map<Seq<char>, BrowserLaunchConfig> {
        self.cached_configs@
    }

    /// The built-in templates.
    pub closed spec fn templates(&self) -> Seq<ParameterTemplate> {
        self.builtin_templates@
    }

    /// Configurations are filed under their own ids.
    pub closed spec fn wf(&self) -> bool {
        &&& self.cached_configs.wf()
        &&& forall|k: Seq<char>| #[trigger] self.cached_configs@.contains_key(k) ==> self.cached_configs@[k].id@ == k
    }

    /// No configuration, and the built-in templates.
    pub fn new() -> (r: ParameterManager)
        ensures
            r.wf(),
            r.configs() == Map::<Seq<char>, BrowserLaunchConfig>::empty(),
            r.templates().len() == 6,
            is_builtin_template(r.templates()[0], TemplateCategory::Testing),
            is_builtin_template(r.templates()[1], TemplateCategory::Development),
            is_builtin_template(r.templates()[2], TemplateCategory::Privacy),
            is_builtin_template(r.templates()[3], TemplateCategory::Performance),
            is_builtin_template(r.templates()[4], TemplateCategory::Automation),
            is_builtin_template(r.templates()[5], TemplateCategory::Security),
    {
        ParameterManager {
            cached_configs: Registry::new(),
            builtin_templates: ParameterTemplate::get_builtin_templates(),
        }
    }

    fn collect_configs(&self, browser_id: Option<&str>) -> (r: Vec<BrowserLaunchConfig>)
        requires
            self.wf(),
        ensures
            lists_configs(r@, self.configs(), |c: BrowserLaunchConfig| passes(browser_id, c)),
    {
        let ghost keep = |c: BrowserLaunchConfig| passes(browser_id, c);
        proof { self.cached_configs.lemma_entries(); }
        let n = self.cached_configs.entry_count();
        let ghost es = self.cached_configs.entry_seq();
        let mut out: Vec<BrowserLaunchConfig> = Vec::new();
        let ghost mut idx: Seq<int> = Seq::empty();
        let mut i: usize = 0;
        while i < n
            invariant
                self.wf(),
                keep == (|c: BrowserLaunchConfig| passes(browser_id, c)),
                es == self.cached_configs.entry_seq(),
                n == es.len(),
                i <= n,
                idx.len() == out@.len(),
                forall|t: int|
                    0 <= t < out@.len() ==> 0 <= #[trigger] idx[t] < i && out@[t].id@ == key_at(es, idx[t])
                        && same_config(out@[t], es[idx[t]].1) && keep(es[idx[t]].1),
                forall|t: int, u: int| 0 <= t < u < idx.len() ==> #[trigger] idx[t] < #[trigger] idx[u],
                forall|j: int|
                    0 <= j < i && keep(#[trigger] es[j].1) ==> exists|t: int| 0 <= t < idx.len() && idx[t] == j,
            decreases n - i,
        {
            let (_, c) = self.cached_configs.entry_at(i);
            let take = match browser_id {
                Some(b) => applies_exec(c, b),
                None => true,
            };
            assert(take == keep(es[i as int].1));
            let ghost before = idx;
            if take {
                out.push(c.duplicate());
                proof { idx = idx.push(i as int); }
            }
            proof {
                assert forall|j: int| 0 <= j < i + 1 && keep(#[trigger] es[j].1) implies exists|t: int|
                    0 <= t < idx.len() && idx[t] == j by {
                    if j < i {
                        let t = choose|t: int| 0 <= t < before.len() && before[t] == j;
                        assert(idx[t] == before[t]);
                    } else {
                        assert(idx[idx.len() - 1] == j);
                    }
                }
            }
            i += 1;
        }
        proof {
            assert forall|t: int| 0 <= t < out@.len() implies self.configs().contains_key(#[trigger] out@[t].id@)
                && same_config(out@[t], self.configs()[out@[t].id@]) && keep(self.configs()[out@[t].id@]) by {
                let j = idx[t];
                assert(self.configs()[key_at(es, j)] == es[j].1);
                assert(crate::registry::has_key(es, key_at(es, j)));
            }
            assert forall|t: int, u: int| 0 <= t < u < out@.len() implies out@[t].id@ != out@[u].id@ by {
                assert(idx[t] < idx[u]);
                assert(key_at(es, idx[t]) != key_at(es, idx[u]));
            }
            assert forall|k: Seq<char>| #[trigger] self.configs().contains_key(k) && keep(self.configs()[k]) implies exists|t: int|
                0 <= t < out@.len() && out@[t].id@ == k by {
                let j = choose|j: int| 0 <= j < es.len() && #[trigger] key_at(es, j) == k;
                assert(self.configs()[key_at(es, j)] == es[j].1);
                let t = choose|t: int| 0 <= t < idx.len() && idx[t] == j;
                assert(out@[t].id@ == k);
            }
        }
        out
    }

    /// Copies of all configurations, each once.
    pub fn get_all_configs(&self) -> (r: Result<Vec<BrowserLaunchConfig>, String>)
        requires
            self.wf(),
        ensures
            r matches Ok(cs) && lists_configs(cs@, self.configs(), |c: BrowserLaunchConfig| true),
    {
        Ok(self.collect_configs(None))
    }

    /// Copies of the configurations that apply to `browser_id`: the global
    /// ones and its own, each once.
    pub fn get_configs_for_browser(&self, browser_id: &str) -> (r: Result<Vec<BrowserLaunchConfig>, String>)
        requires
            self.wf(),
        ensures
            r matches Ok(cs) && lists_configs(cs@, self.configs(), |c: BrowserLaunchConfig| applies_to(c, browser_id@)),
    {
        Ok(self.collect_configs(Some(browser_id)))
    }
}


/// A configuration passes an optional browser given as text.
pub open spec fn passes(browser_id: Option<&str>, c: BrowserLaunchConfig) -> bool {
    match browser_id {
        Some(b) => applies_to(c, b@),
        None => true,
    }
}

/// The templates of `s` in category `c`, in order.
pub open spec fn templates_in(s: Seq<ParameterTemplate>, c: TemplateCategory) -> Seq<ParameterTemplate>
    decreases s.len(),
{
    if s.len() == 0 {
        Seq::empty()
    } else if s.last().category == c {
        templates_in(s.drop_last(), c).push(s.last())
    } else {
        templates_in(s.drop_last(), c)
    }
}

/// The description of a configuration made from a template.
pub open spec fn from_template_description(template_name: Seq<char>) -> Seq<char> {
    "基于模板 '"@ + template_name + "' 创建"@
}

/// The map after `save_config(c)` with update time `stamp`.
pub open spec fn saved(m: Map<Seq<char>, BrowserLaunchConfig>, c: BrowserLaunchConfig, stamp: i64) -> Map<Seq<char>, BrowserLaunchConfig> {
    let base = if c.is_default {
        cleared_all(m, c.browser_id)
    } else {
        m
    };
    base.insert(c.id@, BrowserLaunchConfig { updated_at_ms: stamp, ..c })
}

impl ParameterManager {
    /// A copy of a default configuration among those passing `browser_id`,
    /// if there is one.
    pub fn get_default_config(&self, browser_id: Option<&str>) -> (r: Result<Option<BrowserLaunchConfig>, String>)
        requires
            self.wf(),
        ensures
            r matches Ok(o) && match o {
                Some(c) => self.configs().contains_key(c.id@) && same_config(c, self.configs()[c.id@])
                    && c.is_default && passes(browser_id, c),
                None => forall|k: Seq<char>|
                    #[trigger] self.configs().contains_key(k) ==> !(self.configs()[k].is_default && passes(
                        browser_id,
                        self.configs()[k],
                    )),
            },
    {
        proof { self.cached_configs.lemma_entries(); }
        let n = self.cached_configs.entry_count();
        let ghost es = self.cached_configs.entry_seq();
        let mut i: usize = 0;
        while i < n
            invariant
                self.wf(),
                es == self.cached_configs.entry_seq(),
                n == es.len(),
                i <= n,
                forall|j: int| 0 <= j < i ==> !(#[trigger] es[j].1.is_default && passes(browser_id, es[j].1)),
            decreases n - i,
        {
            let (_, c) = self.cached_configs.entry_at(i);
            let ok = match browser_id {
                Some(b) => applies_exec(c, b),
                None => true,
            };
            if c.is_default && ok {
                return Ok(Some(c.duplicate()));
            }
            i += 1;
        }
        proof {
            assert forall|k: Seq<char>| #[trigger] self.configs().contains_key(k) implies !(self.configs()[k].is_default
                && passes(browser_id, self.configs()[k])) by {
                let j = choose|j: int| 0 <= j < es.len() && #[trigger] key_at(es, j) == k;
                assert(self.configs()[key_at(es, j)] == es[j].1);
            }
        }
        Ok(None)
    }

    fn clear_default_configs(&mut self, owner: &Option<String>)
        requires
            old(self).wf(),
        ensures
            final(self).wf(),
            final(self).configs() == cleared_all(old(self).configs(), *owner),
            final(self).templates() == old(self).templates(),
    {
        let ghost m0 = self.configs();
        proof { self.cached_configs.lemma_entries(); }
        let n = self.cached_configs.entry_count();
        let ghost es = self.cached_configs.entry_seq();
        let mut keys: Vec<String> = Vec::new();
        let mut i: usize = 0;
        while i < n
            invariant
                self.wf(),
                self.configs() == m0,
                self.templates() == old(self).templates(),
                es == self.cached_configs.entry_seq(),
                n == es.len(),
                i <= n,
                forall|t: int| 0 <= t < keys@.len() ==> #[trigger] m0.contains_key(keys@[t]@)
                    && m0[keys@[t]@].is_default && same_owner(m0[keys@[t]@].browser_id, *owner),
                forall|j: int|
                    0 <= j < i && #[trigger] es[j].1.is_default && same_owner(es[j].1.browser_id, *owner)
                        ==> exists|t: int| 0 <= t < keys@.len() && keys@[t]@ == key_at(es, j),
            decreases n - i,
        {
            let (k, c) = self.cached_configs.entry_at(i);
            let ghost before = keys@;
            if c.is_default && same_owner_exec(&c.browser_id, owner) {
                keys.push(k.clone());
            }
            proof {
                assert forall|t: int| 0 <= t < keys@.len() implies #[trigger] m0.contains_key(keys@[t]@)
                    && m0[keys@[t]@].is_default && same_owner(m0[keys@[t]@].browser_id, *owner) by {
                    if t < before.len() {
                        assert(keys@[t] == before[t]);
                    }
                }
                assert forall|j: int|
                    0 <= j < i + 1 && #[trigger] es[j].1.is_default && same_owner(es[j].1.browser_id, *owner)
                        implies exists|t: int| 0 <= t < keys@.len() && keys@[t]@ == key_at(es, j) by {
                    if j < i {
                        let t = choose|t: int| 0 <= t < before.len() && before[t]@ == key_at(es, j);
                        assert(keys@[t] == before[t]);
                    } else {
                        assert(keys@[keys@.len() - 1]@ == key_at(es, j));
                    }
                }
            }
            i += 1;
        }
        let mut t: usize = 0;
        while t < keys.len()
            invariant
                self.wf(),
                self.templates() == old(self).templates(),
                forall|u: int| 0 <= u < keys@.len() ==> #[trigger] m0.contains_key(keys@[u]@)
                    && m0[keys@[u]@].is_default && same_owner(m0[keys@[u]@].browser_id, *owner),
                t <= keys@.len(),
                forall|k: Seq<char>| #[trigger] self.configs().contains_key(k) == m0.contains_key(k),
                forall|k: Seq<char>|
                    #[trigger] m0.contains_key(k) ==> self.configs()[k] == m0[k] || self.configs()[k] == cleared(
                        m0[k],
                        *owner,
                    ),
                forall|u: int| 0 <= u < t ==> self.configs()[#[trigger] keys@[u]@] == cleared(m0[keys@[u]@], *owner),
            decreases keys@.len() - t,
        {
            let key = keys[t].as_str();
            let ghost prev = self.configs();
            let mut c = self.cached_configs.take(key);
            c.is_default = false;
            self.cached_configs.insert(key, c);
            proof {
                assert(m0.contains_key(keys@[t as int]@));
                assert(key@ == keys@[t as int]@);
                assert(prev[key@] == m0[key@] || prev[key@] == cleared(m0[key@], *owner));
                assert(c == cleared(m0[key@], *owner));
                assert(self.configs() == prev.remove(key@).insert(key@, c));
                assert forall|u: int| 0 <= u < t + 1 implies self.configs()[#[trigger] keys@[u]@] == cleared(
                    m0[keys@[u]@],
                    *owner,
                ) by {
                    if keys@[u]@ != key@ {
                        assert(prev[keys@[u]@] == self.configs()[keys@[u]@]);
                    }
                }
            }
            t += 1;
        }
        proof {
            assert forall|k: Seq<char>| #[trigger] m0.contains_key(k) implies self.configs()[k] == cleared(m0[k], *owner) by {
                if m0[k].is_default && same_owner(m0[k].browser_id, *owner) {
                    let j = choose|j: int| 0 <= j < es.len() && #[trigger] key_at(es, j) == k;
                    assert(m0[key_at(es, j)] == es[j].1);
                    let u = choose|u: int| 0 <= u < keys@.len() && keys@[u]@ == key_at(es, j);
                    assert(self.configs()[keys@[u]@] == cleared(m0[keys@[u]@], *owner));
                }
            }
            assert(self.configs() =~= cleared_all(m0, *owner));
        }
    }

    /// Stamps the update time on `config` and files it under its id; where
    /// it is a default, the other defaults of the same owner stop being so.
    pub fn save_config(&mut self, config: BrowserLaunchConfig) -> (r: Result<(), String>)
        requires
            old(self).wf(),
        ensures
            final(self).wf(),
            r is Ok,
            final(self).templates() == old(self).templates(),
            final(self).configs() == saved(
                old(self).configs(),
                config,
                final(self).configs()[config.id@].updated_at_ms,
            ),
    {
        let mut config = config;
        config.updated_at_ms = current_time_ms();
        if config.is_default {
            self.clear_default_configs(&config.browser_id);
        }
        let id = config.id.clone();
        let ghost stored = config;
        self.cached_configs.insert(id.as_str(), config);
        assert(self.configs()[id@] == stored);
        Ok(())
    }

    /// Deletes the configuration with id `config_id`, if there is one.
    pub fn delete_config(&mut self, config_id: &str) -> (r: Result<(), String>)
        requires
            old(self).wf(),
        ensures
            final(self).wf(),
            r is Ok,
            final(self).configs() == old(self).configs().remove(config_id@),
            final(self).templates() == old(self).templates(),
    {
        let _ = self.cached_configs.remove(config_id);
        Ok(())
    }

    /// A copy of the configuration with id `config_id`, if there is one.
    pub fn get_config(&self, config_id: &str) -> (r: Result<Option<BrowserLaunchConfig>, String>)
        requires
            self.wf(),
        ensures
            r matches Ok(o) && match o {
                Some(c) => self.configs().contains_key(config_id@) && same_config(c, self.configs()[config_id@]),
                None => !self.configs().contains_key(config_id@),
            },
    {
        match self.cached_configs.get(config_id) {
            Some(c) => Ok(Some(c.duplicate())),
            None => Ok(None),
        }
    }

    /// Makes, saves and returns a new enabled, non-default configuration
    /// with no parameters.
    pub fn create_config(&mut self, name: String, description: String, browser_id: Option<String>) -> (r: Result<BrowserLaunchConfig, String>)
        requires
            old(self).wf(),
        ensures
            final(self).wf(),
            final(self).templates() == old(self).templates(),
            r matches Ok(c) && {
                &&& c.id@.len() == 36
                &&& c.name == name
                &&& c.description == description
                &&& c.browser_id == browser_id
                &&& c.parameters@.len() == 0
                &&& c.is_enabled
                &&& !c.is_default
                &&& final(self).configs().contains_key(c.id@)
                &&& final(self).configs() == old(self).configs().insert(c.id@, final(self).configs()[c.id@])
                &&& same_config(
                    final(self).configs()[c.id@],
                    BrowserLaunchConfig { updated_at_ms: final(self).configs()[c.id@].updated_at_ms, ..c },
                )
            },
    {
        let mut config = BrowserLaunchConfig::new(name, description);
        config.browser_id = browser_id;
        let _ = self.save_config(config.duplicate());
        assert(self.configs() =~= old(self).configs().insert(config.id@, self.configs()[config.id@]));
        Ok(config)
    }

    /// Copies of the built-in templates, in order.
    pub fn get_all_templates(&self) -> (r: Vec<ParameterTemplate>)
        ensures
            r@.len() == self.templates().len(),
            forall|i: int| 0 <= i < r@.len() ==> same_template(#[trigger] r@[i], self.templates()[i]),
    {
        let mut out: Vec<ParameterTemplate> = Vec::new();
        let mut i: usize = 0;
        while i < self.builtin_templates.len()
            invariant
                i <= self.templates().len(),
                self.templates() == self.builtin_templates@,
                out@.len() == i,
                forall|j: int| 0 <= j < i ==> same_template(#[trigger] out@[j], self.templates()[j]),
            decreases self.templates().len() - i,
        {
            out.push(self.builtin_templates[i].duplicate());
            i += 1;
        }
        out
    }

    /// Copies of the built-in templates of category `category`, in order.
    pub fn get_templates_by_category(&self, category: TemplateCategory) -> (r: Vec<ParameterTemplate>)
        ensures
            r@.len() == templates_in(self.templates(), category).len(),
            forall|i: int| 0 <= i < r@.len() ==> same_template(#[trigger] r@[i], templates_in(self.templates(), category)[i]),
    {
        let ts = &self.builtin_templates;
        let mut out: Vec<ParameterTemplate> = Vec::new();
        let mut i: usize = 0;
        while i < ts.len()
            invariant
                i <= ts@.len(),
                out@.len() == templates_in(ts@.subrange(0, i as int), category).len(),
                forall|j: int| 0 <= j < out@.len() ==> same_template(#[trigger] out@[j], templates_in(ts@.subrange(0, i as int), category)[j]),
            decreases ts@.len() - i,
        {
            proof {
                let next = ts@.subrange(0, i + 1);
                assert(next.drop_last() =~= ts@.subrange(0, i as int));
            }
            if ts[i].category == category {
                out.push(ts[i].duplicate());
            }
            i += 1;
        }
        assert(ts@.subrange(0, ts@.len() as int) =~= ts@);
        out
    }

    fn template_index(&self, template_id: &str) -> (r: Option<usize>)
        ensures
            match r {
                Some(i) => i < self.templates().len() && self.templates()[i as int].id@ == template_id@
                    && forall|j: int| 0 <= j < i ==> #[trigger] self.templates()[j].id@ != template_id@,
                None => forall|j: int| 0 <= j < self.templates().len() ==> #[trigger] self.templates()[j].id@ != template_id@,
            },
    {
        let mut i: usize = 0;
        while i < self.builtin_templates.len()
            invariant
                i <= self.templates().len(),
                self.templates() == self.builtin_templates@,
                forall|j: int| 0 <= j < i ==> #[trigger] self.templates()[j].id@ != template_id@,
            decreases self.templates().len() - i,
        {
            if same_text(self.builtin_templates[i].id.as_str(), template_id) {
                return Some(i);
            }
            i += 1;
        }
        None
    }

    /// A copy of the first built-in template with id `template_id`.
    pub fn get_template(&self, template_id: &str) -> (r: Result<ParameterTemplate, String>)
        ensures
            match r {
                Ok(t) => exists|i: int|
                    0 <= i < self.templates().len() && #[trigger] self.templates()[i].id@ == template_id@
                        && same_template(t, self.templates()[i]),
                Err(e) => e@ == "Template not found"@ && forall|j: int|
                    0 <= j < self.templates().len() ==> #[trigger] self.templates()[j].id@ != template_id@,
            },
    {
        match self.template_index(template_id) {
            Some(i) => Ok(self.builtin_templates[i].duplicate()),
            None => Err(String::from_str("Template not found")),
        }
    }

    /// Makes, saves and returns a configuration holding the parameters of
    /// the template with id `template_id`.
    pub fn create_config_from_template(&mut self, template_id: &str, name: String, browser_id: Option<String>) -> (r: Result<BrowserLaunchConfig, String>)
        requires
            old(self).wf(),
        ensures
            final(self).wf(),
            final(self).templates() == old(self).templates(),
            match r {
                Ok(c) => {
                    &&& exists|i: int|
                        0 <= i < old(self).templates().len() && #[trigger] old(self).templates()[i].id@ == template_id@
                            && c.parameters@ == old(self).templates()[i].parameters@
                            && c.description@ == from_template_description(old(self).templates()[i].name@)
                    &&& c.id@.len() == 36
                    &&& c.name == name
                    &&& c.browser_id == browser_id
                    &&& c.is_enabled
                    &&& !c.is_default
                    &&& final(self).configs().contains_key(c.id@)
                    &&& final(self).configs() == old(self).configs().insert(c.id@, final(self).configs()[c.id@])
                    &&& same_config(
                        final(self).configs()[c.id@],
                        BrowserLaunchConfig { updated_at_ms: final(self).configs()[c.id@].updated_at_ms, ..c },
                    )
                },
                Err(e) => {
                    &&& e@ == "Template not found"@
                    &&& final(self).configs() == old(self).configs()
                    &&& forall|j: int| 0 <= j < old(self).templates().len() ==> #[trigger] old(self).templates()[j].id@ != template_id@
                },
            },
    {
        let i = match self.template_index(template_id) {
            Some(i) => i,
            None => {
                return Err(String::from_str("Template not found"));
            },
        };
        let template = &self.builtin_templates[i];
        let mut description = String::from_str("基于模板 '");
        description.append(template.name.as_str());
        description.append("' 创建");
        let parameters = crate::launch_params::copy_parameters(&template.parameters);
        let mut config = BrowserLaunchConfig::new(name, description);
        config.browser_id = browser_id;
        config.parameters = parameters;
        let _ = self.save_config(config.duplicate());
        assert(self.configs() =~= old(self).configs().insert(config.id@, self.configs()[config.id@]));
        Ok(config)
    }

    /// Makes, saves and returns a copy of configuration `config_id` under a
    /// fresh id and name `new_name`; the copy is not a default.
    pub fn duplicate_config(&mut self, config_id: &str, new_name: String) -> (r: Result<BrowserLaunchConfig, String>)
        requires
            old(self).wf(),
        ensures
            final(self).wf(),
            final(self).templates() == old(self).templates(),
            match r {
                Ok(c) => {
                    let o = old(self).configs()[config_id@];
                    &&& old(self).configs().contains_key(config_id@)
                    &&& c.id@.len() == 36
                    &&& c.name == new_name
                    &&& !c.is_default
                    &&& c.description == o.description
                    &&& c.browser_id == o.browser_id
                    &&& c.parameters@ == o.parameters@
                    &&& c.is_enabled == o.is_enabled
                    &&& c.created_at_ms == c.updated_at_ms
                    &&& final(self).configs().contains_key(c.id@)
                    &&& final(self).configs() == old(self).configs().insert(c.id@, final(self).configs()[c.id@])
                    &&& same_config(
                        final(self).configs()[c.id@],
                        BrowserLaunchConfig { updated_at_ms: final(self).configs()[c.id@].updated_at_ms, ..c },
                    )
                },
                Err(e) => e@ == "Configuration not found"@ && !old(self).configs().contains_key(config_id@)
                    && final(self).configs() == old(self).configs(),
            },
    {
        let mut copy = match self.cached_configs.get(config_id) {
            Some(c) => c.duplicate(),
            None => {
                return Err(String::from_str("Configuration not found"));
            },
        };
        let now = current_time_ms();
        copy.id = generate_id();
        copy.name = new_name;
        copy.is_default = false;
        copy.created_at_ms = now;
        copy.updated_at_ms = now;
        let _ = self.save_config(copy.duplicate());
        assert(self.configs() =~= old(self).configs().insert(copy.id@, self.configs()[copy.id@]));
        Ok(copy)
    }

    /// Replaces the parameters of configuration `config_id` and saves it.
    pub fn update_config_parameters(&mut self, config_id: &str, parameters: Vec<LaunchParameter>) -> (r: Result<(), String>)
        requires
            old(self).wf(),
        ensures
            final(self).wf(),
            final(self).templates() == old(self).templates(),
            match r {
                Ok(_) => old(self).configs().contains_key(config_id@) && final(self).configs() == saved(
                    old(self).configs(),
                    BrowserLaunchConfig { parameters: parameters, ..old(self).configs()[config_id@] },
                    final(self).configs()[config_id@].updated_at_ms,
                ),
                Err(e) => e@ == "Configuration not found"@ && !old(self).configs().contains_key(config_id@)
                    && final(self).configs() == old(self).configs(),
            },
    {
        if !self.cached_configs.contains(config_id) {
            return Err(String::from_str("Configuration not found"));
        }
        let ghost m0 = self.configs();
        let mut config = self.cached_configs.take(config_id);
        config.parameters = parameters;
        let ghost c = config;
        let ghost m1 = self.configs();
        let _ = self.save_config(config);
        proof {
            let stamp = self.configs()[config_id@].updated_at_ms;
            assert(saved(m1, c, stamp) =~= saved(m0, c, stamp));
        }
        Ok(())
    }

    /// Makes configuration `config_id` the default of its owner; the owner's
    /// other defaults stop being so.
    pub fn set_as_default(&mut self, config_id: &str) -> (r: Result<(), String>)
        requires
            old(self).wf(),
        ensures
            final(self).wf(),
            final(self).templates() == old(self).templates(),
            match r {
                Ok(_) => old(self).configs().contains_key(config_id@) && final(self).configs() == saved(
                    old(self).configs(),
                    BrowserLaunchConfig { is_default: true, ..old(self).configs()[config_id@] },
                    final(self).configs()[config_id@].updated_at_ms,
                ),
                Err(e) => e@ == "Configuration not found"@ && !old(self).configs().contains_key(config_id@)
                    && final(self).configs() == old(self).configs(),
            },
    {
        if !self.cached_configs.contains(config_id) {
            return Err(String::from_str("Configuration not found"));
        }
        let ghost m0 = self.configs();
        let mut config = self.cached_configs.take(config_id);
        config.is_default = true;
        let ghost c = config;
        let ghost m1 = self.configs();
        let _ = self.save_config(config);
        proof {
            let stamp = self.configs()[config_id@].updated_at_ms;
            assert(saved(m1, c, stamp) =~= saved(m0, c, stamp));
        }
        Ok(())
    }

    /// Checks configuration `config_id` for enabled dangerous parameters.
    pub fn validate_config_security(&self, config_id: &str) -> (r: Result<SecurityValidation, String>)
        requires
            self.wf(),
        ensures
            match r {
                Ok(v) => {
                    let c = self.configs()[config_id@];
                    &&& self.configs().contains_key(config_id@)
                    &&& v.dangerous_parameter_count == crate::launch_params::dangerous_count_of(c.parameters@)
                    &&& v.is_safe == (v.dangerous_parameter_count == 0)
                    &&& texts_of(v.warnings@) == crate::launch_params::warnings_of(c.parameters@)
                },
                Err(e) => e@ == "Configuration not found"@ && !self.configs().contains_key(config_id@),
            },
    {
        match self.cached_configs.get(config_id) {
            Some(c) => Ok(SecurityValidation::for_config(c)),
            None => Err(String::from_str("Configuration not found")),
        }
    }

    /// The command line for a browser. With `config_ids`, the named
    /// configurations that exist and are enabled, in order; without, the
    /// browser's default configuration, else any default one. Arguments are
    /// merged with each repeated flag kept at its last place only.
    pub fn build_launch_args(&self, browser_id: &str, config_ids: Option<Vec<String>>) -> (r: Result<Vec<String>, String>)
        requires
            self.wf(),
        ensures
            r matches Ok(args) && match config_ids {
                Some(ids) => texts_of(args@) == merged_args(all_args_of(selected_by_ids(self.configs(), ids@))),
                None => if exists|k: Seq<char>| #[trigger] self.configs().contains_key(k) && self.configs()[k].is_default
                    && applies_to(self.configs()[k], browser_id@) {
                    exists|k: Seq<char>|
                        #[trigger] self.configs().contains_key(k) && self.configs()[k].is_default && applies_to(
                            self.configs()[k],
                            browser_id@,
                        ) && texts_of(args@) == merged_args(all_args_of(seq![self.configs()[k]]))
                } else if exists|k: Seq<char>| #[trigger] self.configs().contains_key(k) && self.configs()[k].is_default {
                    exists|k: Seq<char>|
                        #[trigger] self.configs().contains_key(k) && self.configs()[k].is_default
                            && texts_of(args@) == merged_args(all_args_of(seq![self.configs()[k]]))
                } else {
                    args@.len() == 0
                },
            },
    {
        match config_ids {
            Some(ids) => {
                let mut chosen: Vec<BrowserLaunchConfig> = Vec::new();
                let mut i: usize = 0;
                while i < ids.len()
                    invariant
                        self.wf(),
                        i <= ids@.len(),
                        same_configs(chosen@, selected_by_ids(self.configs(), ids@.subrange(0, i as int))),
                    decreases ids@.len() - i,
                {
                    proof {
                        let next = ids@.subrange(0, i + 1);
                        assert(next.drop_last() =~= ids@.subrange(0, i as int));
                    }
                    match self.cached_configs.get(ids[i].as_str()) {
                        Some(c) => {
                            if c.is_enabled {
                                chosen.push(c.duplicate());
                            }
                        },
                        None => {},
                    }
                    i += 1;
                }
                assert(ids@.subrange(0, ids@.len() as int) =~= ids@);
                let args = merge_launch_args(&chosen);
                proof { lemma_same_configs_same_args(chosen@, selected_by_ids(self.configs(), ids@)); }
                Ok(args)
            },
            None => {
                let own = match self.get_default_config(Some(browser_id)) {
                    Ok(o) => o,
                    Err(_) => None,
                };
                let chosen = match own {
                    Some(c) => vec![c],
                    None => {
                        let any = match self.get_default_config(None) {
                            Ok(o) => o,
                            Err(_) => None,
                        };
                        match any {
                            Some(c) => vec![c],
                            None => Vec::new(),
                        }
                    },
                };
                let args = merge_launch_args(&chosen);
                proof {
                    if chosen@.len() == 1 {
                        let k = chosen@[0].id@;
                        assert(same_configs(chosen@, seq![self.configs()[k]]));
                        lemma_same_configs_same_args(chosen@, seq![self.configs()[k]]);
                    } else {
                        assert(chosen@ =~= Seq::<BrowserLaunchConfig>::empty());
                        assert(all_args_of(chosen@) =~= Seq::<Seq<char>>::empty());
                        assert(merged_args(Seq::<Seq<char>>::empty()) =~= Seq::<Seq<char>>::empty());
                    }
                }
                Ok(args)
            },
        }
    }
}

} // verus!
