//! Browser launch parameters: single flags, named configurations of them,
//! the built-in templates, and the command line they give.

use vstd::prelude::*;
use vstd::string::*;

verus! {

/// What a launch parameter is about.
#[derive(Debug, Clone, Copy, PartialEq, Eq, Structural)]
pub enum ParameterCategory {
    Security,
    Performance,
    Development,
    Privacy,
    Experimental,
    Network,
    UI,
    Automation,
    Custom,
}

/// What a template is for.
#[derive(Debug, Clone, Copy, PartialEq, Eq, Structural)]
pub enum TemplateCategory {
    Testing,
    Development,
    Privacy,
    Performance,
    Automation,
    Security,
}

/// One command-line flag, with an optional value.
#[derive(Debug, Clone)]
pub struct LaunchParameter {
    pub id: String,
    pub name: String,
    pub flag: String,
    pub value: Option<String>,
    pub description: String,
    pub category: ParameterCategory,
    pub is_enabled: bool,
    pub is_dangerous: bool,
}

/// A preset group of parameters.
#[derive(Debug, Clone)]
pub struct ParameterTemplate {
    pub id: String,
    pub name: String,
    pub description: String,
    pub category: TemplateCategory,
    pub parameters: Vec<LaunchParameter>,
    pub is_builtin: bool,
}

/// A named set of parameters, global or for one browser. Instants are in
/// milliseconds since the Unix epoch.
#[derive(Debug, Clone)]
pub struct BrowserLaunchConfig {
    pub id: String,
    pub name: String,
    pub description: String,
    pub browser_id: Option<String>,
    pub parameters: Vec<LaunchParameter>,
    pub is_enabled: bool,
    pub is_default: bool,
    pub created_at_ms: i64,
    pub updated_at_ms: i64,
}

/// The outcome of checking a configuration for dangerous parameters.
#[derive(Debug, Clone)]
pub struct SecurityValidation {
    pub is_safe: bool,
    pub dangerous_parameter_count: usize,
    pub warnings: Vec<String>,
}

/// Relies on `uuid::Uuid::new_v4` and its `Display`: a random identifier in
/// hyphenated form, 36 characters long.
#[verifier::external_body]
pub fn generate_id() -> (r: String)
    ensures
        r@.len() == 36,
{
    uuid::Uuid::new_v4().to_string()
}

/// Relies on `chrono::Utc::now` and `DateTime::timestamp_millis`: the
/// current instant in milliseconds since the Unix epoch.
#[verifier::external_body]
fn now_millis() -> (r: i64) {
    chrono::Utc::now().timestamp_millis()
}

/// The parameters of `s` that are enabled, in order.
pub open spec fn enabled_of(s: Seq<LaunchParameter>) -> Seq<LaunchParameter>
    decreases s.len(),
{
    if s.len() == 0 {
        Seq::empty()
    } else if s.last().is_enabled {
        enabled_of(s.drop_last()).push(s.last())
    } else {
        enabled_of(s.drop_last())
    }
}

/// The arguments one parameter gives: its flag, then its value where it has
/// a nonempty one.
pub open spec fn args_of(p: LaunchParameter) -> Seq<Seq<char>> {
    match p.value {
        Some(v) => if v@.len() == 0 {
            seq![p.flag@]
        } else {
            seq![p.flag@, v@]
        },
        None => seq![p.flag@],
    }
}

/// The command-line arguments of the enabled parameters of `s`, in order.
pub open spec fn command_args_of(s: Seq<LaunchParameter>) -> Seq<Seq<char>>
    decreases s.len(),
{
    if s.len() == 0 {
        Seq::empty()
    } else if s.last().is_enabled {
        command_args_of(s.drop_last()) + args_of(s.last())
    } else {
        command_args_of(s.drop_last())
    }
}

/// The number of parameters of `s` that are enabled and dangerous.
pub open spec fn dangerous_count_of(s: Seq<LaunchParameter>) -> nat
    decreases s.len(),
{
    if s.len() == 0 {
        0
    } else {
        dangerous_count_of(s.drop_last()) + if s.last().is_enabled && s.last().is_dangerous {
            1nat
        } else {
            0nat
        }
    }
}

/// The texts of a sequence of strings.
pub open spec fn texts_of(s: Seq<String>) -> Seq<Seq<char>> {
    s.map_values(|a: String| a@)
}

impl LaunchParameter {
    /// An enabled, harmless parameter with no value or description and a
    /// fresh id.
    pub fn new(name: String, flag: String, category: ParameterCategory) -> (r: LaunchParameter)
        ensures
            r.id@.len() == 36,
            r.name == name,
            r.flag == flag,
            r.value is None,
            r.description@.len() == 0,
            r.category == category,
            r.is_enabled,
            !r.is_dangerous,
    {
        LaunchParameter {
            id: generate_id(),
            name,
            flag,
            value: None,
            description: String::new(),
            category,
            is_enabled: true,
            is_dangerous: false,
        }
    }

    /// This parameter with value `value`.
    pub fn with_value(self, value: String) -> (r: LaunchParameter)
        ensures
            r == (LaunchParameter { value: Some(value), ..self }),
    {
        let mut p = self;
        p.value = Some(value);
        p
    }

    /// This parameter with description `description`.
    pub fn with_description(self, description: String) -> (r: LaunchParameter)
        ensures
            r == (LaunchParameter { description: description, ..self }),
    {
        let mut p = self;
        p.description = description;
        p
    }

    /// This parameter marked dangerous.
    pub fn dangerous(self) -> (r: LaunchParameter)
        ensures
            r == (LaunchParameter { is_dangerous: true, ..self }),
    {
        let mut p = self;
        p.is_dangerous = true;
        p
    }

    /// A copy of this parameter.
    pub fn duplicate(&self) -> (r: LaunchParameter)
        ensures
            r == *self,
    {
        LaunchParameter {
            id: self.id.clone(),
            name: self.name.clone(),
            flag: self.flag.clone(),
            value: match &self.value {
                Some(v) => Some(v.clone()),
                None => None,
            },
            description: self.description.clone(),
            category: self.category,
            is_enabled: self.is_enabled,
            is_dangerous: self.is_dangerous,
        }
    }
}

/// The display name of each parameter category.
pub open spec fn parameter_category_name(c: ParameterCategory) -> Seq<char> {
    match c {
        ParameterCategory::Security => "安全设置"@,
        ParameterCategory::Performance => "性能优化"@,
        ParameterCategory::Development => "开发调试"@,
        ParameterCategory::Privacy => "隐私保护"@,
        ParameterCategory::Experimental => "实验功能"@,
        ParameterCategory::Network => "网络设置"@,
        ParameterCategory::UI => "界面设置"@,
        ParameterCategory::Automation => "自动化"@,
        ParameterCategory::Custom => "自定义"@,
    }
}

/// The icon of each parameter category.
pub open spec fn parameter_category_icon(c: ParameterCategory) -> Seq<char> {
    match c {
        ParameterCategory::Security => "🔒"@,
        ParameterCategory::Performance => "⚡"@,
        ParameterCategory::Development => "🛠️"@,
        ParameterCategory::Privacy => "👤"@,
        ParameterCategory::Experimental => "🧪"@,
        ParameterCategory::Network => "🌐"@,
        ParameterCategory::UI => "🎨"@,
        ParameterCategory::Automation => "🤖"@,
        ParameterCategory::Custom => "⚙️"@,
    }
}

/// The display name of each template category.
pub open spec fn template_category_name(c: TemplateCategory) -> Seq<char> {
    match c {
        TemplateCategory::Testing => "测试用途"@,
        TemplateCategory::Development => "开发用途"@,
        TemplateCategory::Privacy => "隐私保护"@,
        TemplateCategory::Performance => "性能优化"@,
        TemplateCategory::Automation => "自动化测试"@,
        TemplateCategory::Security => "安全测试"@,
    }
}

impl ParameterCategory {
    /// The name shown for this category.
    pub fn display_name(&self) -> (r: &'static str)
        ensures
            r@ == parameter_category_name(*self),
    {
        match self {
            ParameterCategory::Security => "安全设置",
            ParameterCategory::Performance => "性能优化",
            ParameterCategory::Development => "开发调试",
            ParameterCategory::Privacy => "隐私保护",
            ParameterCategory::Experimental => "实验功能",
            ParameterCategory::Network => "网络设置",
            ParameterCategory::UI => "界面设置",
            ParameterCategory::Automation => "自动化",
            ParameterCategory::Custom => "自定义",
        }
    }

    /// The icon shown for this category.
    pub fn icon(&self) -> (r: &'static str)
        ensures
            r@ == parameter_category_icon(*self),
    {
        match self {
            ParameterCategory::Security => "🔒",
            ParameterCategory::Performance => "⚡",
            ParameterCategory::Development => "🛠️",
            ParameterCategory::Privacy => "👤",
            ParameterCategory::Experimental => "🧪",
            ParameterCategory::Network => "🌐",
            ParameterCategory::UI => "🎨",
            ParameterCategory::Automation => "🤖",
            ParameterCategory::Custom => "⚙️",
        }
    }
}

impl TemplateCategory {
    /// The name shown for this category.
    pub fn display_name(&self) -> (r: &'static str)
        ensures
            r@ == template_category_name(*self),
    {
        match self {
            TemplateCategory::Testing => "测试用途",
            TemplateCategory::Development => "开发用途",
            TemplateCategory::Privacy => "隐私保护",
            TemplateCategory::Performance => "性能优化",
            TemplateCategory::Automation => "自动化测试",
            TemplateCategory::Security => "安全测试",
        }
    }
}

impl SecurityValidation {
    /// More than three dangerous parameters are enabled.
    pub fn has_critical_warnings(&self) -> (r: bool)
        ensures
            r == (self.dangerous_parameter_count > 3),
    {
        self.dangerous_parameter_count > 3
    }
}


/// A command-line flag: text starting with two dashes.
pub open spec fn is_flag(a: Seq<char>) -> bool {
    a.len() >= 2 && a[0] == '-' && a[1] == '-'
}

/// Argument `i` of `s` stays when merging: it is no flag, or no later
/// argument repeats it.
pub open spec fn kept_at(s: Seq<Seq<char>>, i: int) -> bool {
    !is_flag(s[i]) || !(exists|j: int| i < j < s.len() && s[j] == s[i])
}

/// The first `n` arguments of `s` that stay when merging, in order.
pub open spec fn kept_prefix(s: Seq<Seq<char>>, n: int) -> Seq<Seq<char>>
    decreases n,
{
    if n <= 0 {
        Seq::empty()
    } else if kept_at(s, n - 1) {
        kept_prefix(s, n - 1).push(s[n - 1])
    } else {
        kept_prefix(s, n - 1)
    }
}

/// The arguments of `s` with each repeated flag kept at its last place only.
pub open spec fn merged_args(s: Seq<Seq<char>>) -> Seq<Seq<char>> {
    kept_prefix(s, s.len() as int)
}

/// The arguments of the enabled configurations of `s`, in order.
pub open spec fn all_args_of(s: Seq<BrowserLaunchConfig>) -> Seq<Seq<char>>
    decreases s.len(),
{
    if s.len() == 0 {
        Seq::empty()
    } else if s.last().is_enabled {
        all_args_of(s.drop_last()) + command_args_of(s.last().parameters@)
    } else {
        all_args_of(s.drop_last())
    }
}

/// The warning for each enabled dangerous parameter of `s`, in order.
pub open spec fn warnings_of(s: Seq<LaunchParameter>) -> Seq<Seq<char>>
    decreases s.len(),
{
    if s.len() == 0 {
        Seq::empty()
    } else if s.last().is_enabled && s.last().is_dangerous {
        warnings_of(s.drop_last()).push("危险参数: "@ + s.last().name@ + " - "@ + s.last().description@)
    } else {
        warnings_of(s.drop_last())
    }
}

fn is_flag_text(a: &str) -> (r: bool)
    ensures
        r == is_flag(a@),
{
    let cs = crate::text::chars_of(a);
    cs.len() >= 2 && cs[0] == '-' && cs[1] == '-'
}

fn appears_after(s: &Vec<String>, i: usize) -> (r: bool)
    requires
        i < s@.len(),
    ensures
        r == (exists|j: int| i < j < s@.len() && texts_of(s@)[j] == texts_of(s@)[i as int]),
{
    let n = s.len();
    let mut j: usize = i + 1;
    while j < n
        invariant
            n == s@.len(),
            i < j <= s@.len(),
            forall|k: int| i < k < j ==> texts_of(s@)[k] != texts_of(s@)[i as int],
        decreases s@.len() - j,
    {
        if s[j] == s[i] {
            assert(texts_of(s@)[j as int] == texts_of(s@)[i as int]);
            return true;
        }
        j += 1;
    }
    false
}

/// The command line of several configurations: the arguments of the enabled
/// ones in order, with each repeated flag kept at its last place only.
pub fn merge_launch_args(configs: &Vec<BrowserLaunchConfig>) -> (r: Vec<String>)
    ensures
        texts_of(r@) == merged_args(all_args_of(configs@)),
{
    let mut all: Vec<String> = Vec::new();
    let mut c: usize = 0;
    while c < configs.len()
        invariant
            c <= configs@.len(),
            texts_of(all@) == all_args_of(configs@.subrange(0, c as int)),
        decreases configs@.len() - c,
    {
        proof {
            let next = configs@.subrange(0, c + 1);
            assert(next.drop_last() =~= configs@.subrange(0, c as int));
        }
        if configs[c].is_enabled {
            let mut args = configs[c].to_command_args();
            let ghost before = all@;
            all.append(&mut args);
            assert(texts_of(all@) =~= texts_of(before) + command_args_of(configs@[c as int].parameters@));
        }
        c += 1;
    }
    assert(configs@.subrange(0, configs@.len() as int) =~= configs@);
    let ghost s = texts_of(all@);
    let mut out: Vec<String> = Vec::new();
    let mut i: usize = 0;
    while i < all.len()
        invariant
            s == texts_of(all@),
            i <= all@.len(),
            texts_of(out@) == kept_prefix(s, i as int),
        decreases all@.len() - i,
    {
        let keep = !is_flag_text(all[i].as_str()) || !appears_after(&all, i);
        let ghost before = out@;
        if keep {
            out.push(all[i].clone());
            assert(texts_of(out@) =~= texts_of(before).push(s[i as int]));
        }
        i += 1;
    }
    out
}

impl BrowserLaunchConfig {
    /// An enabled, non-default, global configuration with no parameters, a
    /// fresh id, created now.
    pub fn new(name: String, description: String) -> (r: BrowserLaunchConfig)
        ensures
            r.id@.len() == 36,
            r.name == name,
            r.description == description,
            r.browser_id is None,
            r.parameters@.len() == 0,
            r.is_enabled,
            !r.is_default,
            r.created_at_ms == r.updated_at_ms,
    {
        let now = now_millis();
        BrowserLaunchConfig {
            id: generate_id(),
            name,
            description,
            browser_id: None,
            parameters: Vec::new(),
            is_enabled: true,
            is_default: false,
            created_at_ms: now,
            updated_at_ms: now,
        }
    }

    /// Appends a parameter and stamps the update time.
    pub fn add_parameter(&mut self, parameter: LaunchParameter)
        ensures
            final(self).parameters@ == old(self).parameters@.push(parameter),
            *final(self) == (BrowserLaunchConfig {
                parameters: final(self).parameters,
                updated_at_ms: final(self).updated_at_ms,
                ..*old(self)
            }),
    {
        self.parameters.push(parameter);
        self.updated_at_ms = now_millis();
    }

    /// Removes the first parameter with id `parameter_id`, stamping the
    /// update time; answers whether there was one.
    pub fn remove_parameter(&mut self, parameter_id: &str) -> (r: bool)
        ensures
            r == (exists|i: int| 0 <= i < old(self).parameters@.len() && #[trigger] old(self).parameters@[i].id@ == parameter_id@),
            !r ==> *final(self) == *old(self),
            r ==> exists|i: int|
                0 <= i < old(self).parameters@.len() && #[trigger] old(self).parameters@[i].id@ == parameter_id@
                    && (forall|j: int| 0 <= j < i ==> old(self).parameters@[j].id@ != parameter_id@)
                    && final(self).parameters@ == old(self).parameters@.remove(i),
            r ==> *final(self) == (BrowserLaunchConfig {
                parameters: final(self).parameters,
                updated_at_ms: final(self).updated_at_ms,
                ..*old(self)
            }),
    {
        let mut i: usize = 0;
        while i < self.parameters.len()
            invariant
                *self == *old(self),
                i <= self.parameters@.len(),
                forall|j: int| 0 <= j < i ==> self.parameters@[j].id@ != parameter_id@,
            decreases self.parameters@.len() - i,
        {
            if crate::text::same_text(self.parameters[i].id.as_str(), parameter_id) {
                self.parameters.remove(i);
                self.updated_at_ms = now_millis();
                return true;
            }
            i += 1;
        }
        false
    }

    /// The enabled parameters, in order.
    pub fn get_enabled_parameters(&self) -> (r: Vec<&LaunchParameter>)
        ensures
            r@.len() == enabled_of(self.parameters@).len(),
            forall|i: int| 0 <= i < r@.len() ==> *r@[i] == enabled_of(self.parameters@)[i],
    {
        let mut out: Vec<&LaunchParameter> = Vec::new();
        let mut i: usize = 0;
        while i < self.parameters.len()
            invariant
                i <= self.parameters@.len(),
                out@.len() == enabled_of(self.parameters@.subrange(0, i as int)).len(),
                forall|k: int| 0 <= k < out@.len() ==> *out@[k] == enabled_of(self.parameters@.subrange(0, i as int))[k],
            decreases self.parameters@.len() - i,
        {
            proof {
                let next = self.parameters@.subrange(0, i + 1);
                assert(next.drop_last() =~= self.parameters@.subrange(0, i as int));
            }
            if self.parameters[i].is_enabled {
                out.push(&self.parameters[i]);
            }
            i += 1;
        }
        assert(self.parameters@.subrange(0, self.parameters@.len() as int) =~= self.parameters@);
        out
    }

    /// The command-line arguments of the enabled parameters: each flag,
    /// followed by its value where it has a nonempty one.
    pub fn to_command_args(&self) -> (r: Vec<String>)
        ensures
            texts_of(r@) == command_args_of(self.parameters@),
    {
        let mut out: Vec<String> = Vec::new();
        let mut i: usize = 0;
        while i < self.parameters.len()
            invariant
                i <= self.parameters@.len(),
                texts_of(out@) == command_args_of(self.parameters@.subrange(0, i as int)),
            decreases self.parameters@.len() - i,
        {
            proof {
                let next = self.parameters@.subrange(0, i + 1);
                assert(next.drop_last() =~= self.parameters@.subrange(0, i as int));
            }
            let p = &self.parameters[i];
            if p.is_enabled {
                let ghost before = out@;
                out.push(p.flag.clone());
                match &p.value {
                    Some(v) => {
                        if v.as_str().unicode_len() != 0 {
                            out.push(v.clone());
                        }
                    },
                    None => {},
                }
                assert(texts_of(out@) =~= texts_of(before) + args_of(*p));
            }
            i += 1;
        }
        assert(self.parameters@.subrange(0, self.parameters@.len() as int) =~= self.parameters@);
        out
    }

    /// The number of enabled dangerous parameters.
    pub fn dangerous_parameter_count(&self) -> (r: usize)
        ensures
            r == dangerous_count_of(self.parameters@),
    {
        let mut count: usize = 0;
        let mut i: usize = 0;
        while i < self.parameters.len()
            invariant
                i <= self.parameters@.len(),
                count == dangerous_count_of(self.parameters@.subrange(0, i as int)),
                count <= i,
            decreases self.parameters@.len() - i,
        {
            proof {
                let next = self.parameters@.subrange(0, i + 1);
                assert(next.drop_last() =~= self.parameters@.subrange(0, i as int));
            }
            if self.parameters[i].is_enabled && self.parameters[i].is_dangerous {
                count += 1;
            }
            i += 1;
        }
        assert(self.parameters@.subrange(0, self.parameters@.len() as int) =~= self.parameters@);
        count
    }
}

/// Two configurations hold the same values, parameters included.
pub open spec fn same_config(a: BrowserLaunchConfig, b: BrowserLaunchConfig) -> bool {
    a == (BrowserLaunchConfig { parameters: a.parameters, ..b }) && a.parameters@ == b.parameters@
}

/// Two templates hold the same values, parameters included.
pub open spec fn same_template(a: ParameterTemplate, b: ParameterTemplate) -> bool {
    a == (ParameterTemplate { parameters: a.parameters, ..b }) && a.parameters@ == b.parameters@
}

impl BrowserLaunchConfig {
    /// A copy of this configuration.
    pub fn duplicate(&self) -> (r: BrowserLaunchConfig)
        ensures
            same_config(r, *self),
    {
        BrowserLaunchConfig {
            id: self.id.clone(),
            name: self.name.clone(),
            description: self.description.clone(),
            browser_id: match &self.browser_id {
                Some(b) => Some(b.clone()),
                None => None,
            },
            parameters: copy_parameters(&self.parameters),
            is_enabled: self.is_enabled,
            is_default: self.is_default,
            created_at_ms: self.created_at_ms,
            updated_at_ms: self.updated_at_ms,
        }
    }
}

impl ParameterTemplate {
    /// A copy of this template.
    pub fn duplicate(&self) -> (r: ParameterTemplate)
        ensures
            same_template(r, *self),
    {
        ParameterTemplate {
            id: self.id.clone(),
            name: self.name.clone(),
            description: self.description.clone(),
            category: self.category,
            parameters: copy_parameters(&self.parameters),
            is_builtin: self.is_builtin,
        }
    }
}

/// Copies of a list of parameters.
pub fn copy_parameters(ps: &Vec<LaunchParameter>) -> (r: Vec<LaunchParameter>)
    ensures
        r@ == ps@,
{
    let mut out: Vec<LaunchParameter> = Vec::new();
    let mut i: usize = 0;
    while i < ps.len()
        invariant
            i <= ps@.len(),
            out@ == ps@.subrange(0, i as int),
        decreases ps@.len() - i,
    {
        out.push(ps[i].duplicate());
        i += 1;
        assert(out@ =~= ps@.subrange(0, i as int));
    }
    assert(out@ =~= ps@);
    out
}

/// The current instant, in milliseconds since the Unix epoch.
pub fn current_time_ms() -> (r: i64) {
    now_millis()
}

impl SecurityValidation {
    /// Checks a configuration: its enabled dangerous parameters are counted
    /// and each gets a warning naming it; it is safe where there are none.
    pub fn for_config(config: &BrowserLaunchConfig) -> (r: SecurityValidation)
        ensures
            r.dangerous_parameter_count == dangerous_count_of(config.parameters@),
            r.is_safe == (r.dangerous_parameter_count == 0),
            texts_of(r.warnings@) == warnings_of(config.parameters@),
    {
        let mut warnings: Vec<String> = Vec::new();
        let mut count: usize = 0;
        let mut i: usize = 0;
        let ps = &config.parameters;
        while i < ps.len()
            invariant
                i <= ps@.len(),
                count == dangerous_count_of(ps@.subrange(0, i as int)),
                count <= i,
                texts_of(warnings@) == warnings_of(ps@.subrange(0, i as int)),
            decreases ps@.len() - i,
        {
            proof {
                let next = ps@.subrange(0, i + 1);
                assert(next.drop_last() =~= ps@.subrange(0, i as int));
            }
            let p = &ps[i];
            if p.is_enabled && p.is_dangerous {
                let ghost before = warnings@;
                let mut w = String::from_str("危险参数: ");
                w.append(p.name.as_str());
                w.append(" - ");
                w.append(p.description.as_str());
                warnings.push(w);
                assert(texts_of(warnings@) =~= texts_of(before).push(
                    "危险参数: "@ + p.name@ + " - "@ + p.description@,
                ));
                count += 1;
            }
            i += 1;
        }
        assert(ps@.subrange(0, ps@.len() as int) =~= ps@);
        SecurityValidation { is_safe: count == 0, dangerous_parameter_count: count, warnings }
    }
}


/// How a built-in template's parameter is made: flag, value, whether it is
/// dangerous.
pub open spec fn builtin_parameters(c: TemplateCategory) -> Seq<(Seq<char>, Option<Seq<char>>, bool)> {
    match c {
        TemplateCategory::Testing => seq![("--disable-web-security"@, None, true), ("--allow-running-insecure-content"@, None, true), ("--disable-extensions"@, None, false), ("--ignore-certificate-errors"@, None, true)],
        TemplateCategory::Development => seq![("--auto-open-devtools-for-tabs"@, None, false), ("--disable-application-cache"@, None, false), ("--enable-experimental-web-platform-features"@, None, false), ("--enable-logging"@, None, false)],
        TemplateCategory::Privacy => seq![("--incognito"@, None, false), ("--disable-geolocation"@, None, false), ("--disable-notifications"@, None, false), ("--disable-background-networking"@, None, false)],
        TemplateCategory::Performance => seq![("--disable-images"@, None, false), ("--max_old_space_size"@, Some("1024"@), false), ("--disable-plugins"@, None, false), ("--enable-gpu-rasterization"@, None, false)],
        TemplateCategory::Automation => seq![("--headless"@, None, false), ("--disable-gpu"@, None, false), ("--remote-debugging-port"@, Some("9222"@), false), ("--no-sandbox"@, None, true)],
        TemplateCategory::Security => seq![("--disable-xss-auditor"@, None, true), ("--disable-features=VizDisplayCompositor"@, None, true), ("--ignore-ssl-errors"@, None, true), ("--disable-web-security"@, None, true)],
    }
}

/// The id of the built-in template of each category.
pub open spec fn builtin_template_id(c: TemplateCategory) -> Seq<char> {
    match c {
        TemplateCategory::Testing => "testing"@,
        TemplateCategory::Development => "development"@,
        TemplateCategory::Privacy => "privacy"@,
        TemplateCategory::Performance => "performance"@,
        TemplateCategory::Automation => "automation"@,
        TemplateCategory::Security => "security_testing"@,
    }
}

/// `t` is the built-in template of category `c`: its id, category and
/// parameters, each enabled, with the flag, value and danger mark listed
/// for it.
pub open spec fn is_builtin_template(t: ParameterTemplate, c: TemplateCategory) -> bool {
    let ps = builtin_parameters(c);
    &&& t.id@ == builtin_template_id(c)
    &&& t.category == c
    &&& t.is_builtin
    &&& t.parameters@.len() == ps.len()
    &&& forall|i: int|
        0 <= i < ps.len() ==> {
            let p = #[trigger] t.parameters@[i];
            &&& p.flag@ == ps[i].0
            &&& p.is_enabled
            &&& p.is_dangerous == ps[i].2
            &&& match p.value {
                Some(v) => ps[i].1 == Some(v@),
                None => ps[i].1 is None,
            }
        }
}

fn builtin_parameter(
    name: &str,
    flag: &str,
    category: ParameterCategory,
    description: &str,
    value: Option<&str>,
    is_dangerous: bool,
) -> (r: LaunchParameter)
    ensures
        r.name@ == name@,
        r.flag@ == flag@,
        r.category == category,
        r.description@ == description@,
        r.is_enabled,
        r.is_dangerous == is_dangerous,
        match r.value {
            Some(v) => value matches Some(w) && v@ == w@,
            None => value is None,
        },
{
    let mut p = LaunchParameter::new(String::from_str(name), String::from_str(flag), category);
    match value {
        Some(v) => {
            p = p.with_value(String::from_str(v));
        },
        None => {},
    }
    p = p.with_description(String::from_str(description));
    if is_dangerous {
        p = p.dangerous();
    }
    p
}

impl ParameterTemplate {
    /// The six built-in templates: testing, development, privacy,
    /// performance, automation and security testing, in that order.
    pub fn get_builtin_templates() -> (r: Vec<ParameterTemplate>)
        ensures
            r@.len() == 6,
            is_builtin_template(r@[0], TemplateCategory::Testing),
            is_builtin_template(r@[1], TemplateCategory::Development),
            is_builtin_template(r@[2], TemplateCategory::Privacy),
            is_builtin_template(r@[3], TemplateCategory::Performance),
            is_builtin_template(r@[4], TemplateCategory::Automation),
            is_builtin_template(r@[5], TemplateCategory::Security),
    {
        vec![
            ParameterTemplate::create_testing_template(),
            ParameterTemplate::create_development_template(),
            ParameterTemplate::create_privacy_template(),
            ParameterTemplate::create_performance_template(),
            ParameterTemplate::create_automation_template(),
            ParameterTemplate::create_security_testing_template(),
        ]
    }

    fn create_testing_template() -> (r: ParameterTemplate)
        ensures
            is_builtin_template(r, TemplateCategory::Testing),
    {
        let parameters = vec![
            builtin_parameter("禁用Web安全", "--disable-web-security", ParameterCategory::Security, "禁用同源策略，允许跨域请求", None, true),
            builtin_parameter("允许运行不安全内容", "--allow-running-insecure-content", ParameterCategory::Security, "允许HTTPS页面加载HTTP资源", None, true),
            builtin_parameter("禁用扩展", "--disable-extensions", ParameterCategory::Performance, "禁用所有浏览器扩展", None, false),
            builtin_parameter("忽略证书错误", "--ignore-certificate-errors", ParameterCategory::Security, "忽略SSL证书错误", None, true),
        ];
        ParameterTemplate {
            id: String::from_str("testing"),
            name: String::from_str("测试模式"),
            description: String::from_str("适用于网站测试的浏览器配置"),
            category: TemplateCategory::Testing,
            parameters,
            is_builtin: true,
        }
    }

    fn create_development_template() -> (r: ParameterTemplate)
        ensures
            is_builtin_template(r, TemplateCategory::Development),
    {
        let parameters = vec![
            builtin_parameter("开启开发者工具", "--auto-open-devtools-for-tabs", ParameterCategory::Development, "自动为所有标签页打开开发者工具", None, false),
            builtin_parameter("禁用缓存", "--disable-application-cache", ParameterCategory::Development, "禁用应用程序缓存", None, false),
            builtin_parameter("启用实验性Web功能", "--enable-experimental-web-platform-features", ParameterCategory::Experimental, "启用实验性的Web平台功能", None, false),
            builtin_parameter("详细日志", "--enable-logging", ParameterCategory::Development, "启用详细的浏览器日志", None, false),
        ];
        ParameterTemplate {
            id: String::from_str("development"),
            name: String::from_str("开发调试"),
            description: String::from_str("适用于Web开发的浏览器配置"),
            category: TemplateCategory::Development,
            parameters,
            is_builtin: true,
        }
    }

    fn create_privacy_template() -> (r: ParameterTemplate)
        ensures
            is_builtin_template(r, TemplateCategory::Privacy),
    {
        let parameters = vec![
            builtin_parameter("隐身模式", "--incognito", ParameterCategory::Privacy, "以隐身模式启动浏览器", None, false),
            builtin_parameter("禁用地理位置", "--disable-geolocation", ParameterCategory::Privacy, "禁用地理位置API", None, false),
            builtin_parameter("禁用通知", "--disable-notifications", ParameterCategory::Privacy, "禁用桌面通知", None, false),
            builtin_parameter("不发送使用统计", "--disable-background-networking", ParameterCategory::Privacy, "禁用后台网络连接", None, false),
        ];
        ParameterTemplate {
            id: String::from_str("privacy"),
            name: String::from_str("隐私保护"),
            description: String::from_str("注重隐私保护的浏览器配置"),
            category: TemplateCategory::Privacy,
            parameters,
            is_builtin: true,
        }
    }

    fn create_performance_template() -> (r: ParameterTemplate)
        ensures
            is_builtin_template(r, TemplateCategory::Performance),
    {
        let parameters = vec![
            builtin_parameter("禁用图片", "--disable-images", ParameterCategory::Performance, "禁用图片加载以提高性能", None, false),
            builtin_parameter("最大内存使用", "--max_old_space_size", ParameterCategory::Performance, "设置最大内存使用量(MB)", Some("1024"), false),
            builtin_parameter("禁用插件", "--disable-plugins", ParameterCategory::Performance, "禁用所有插件", None, false),
            builtin_parameter("GPU加速", "--enable-gpu-rasterization", ParameterCategory::Performance, "启用GPU光栅化加速", None, false),
        ];
        ParameterTemplate {
            id: String::from_str("performance"),
            name: String::from_str("性能优化"),
            description: String::from_str("优化浏览器性能的配置"),
            category: TemplateCategory::Performance,
            parameters,
            is_builtin: true,
        }
    }

    fn create_automation_template() -> (r: ParameterTemplate)
        ensures
            is_builtin_template(r, TemplateCategory::Automation),
    {
        let parameters = vec![
            builtin_parameter("无头模式", "--headless", ParameterCategory::Automation, "以无头模式运行（无界面）", None, false),
            builtin_parameter("禁用GPU", "--disable-gpu", ParameterCategory::Automation, "禁用GPU硬件加速", None, false),
            builtin_parameter("远程调试端口", "--remote-debugging-port", ParameterCategory::Automation, "设置远程调试端口", Some("9222"), false),
            builtin_parameter("禁用沙箱", "--no-sandbox", ParameterCategory::Security, "禁用沙箱模式（仅限测试环境）", None, true),
        ];
        ParameterTemplate {
            id: String::from_str("automation"),
            name: String::from_str("自动化测试"),
            description: String::from_str("适用于自动化测试的浏览器配置"),
            category: TemplateCategory::Automation,
            parameters,
            is_builtin: true,
        }
    }

    fn create_security_testing_template() -> (r: ParameterTemplate)
        ensures
            is_builtin_template(r, TemplateCategory::Security),
    {
        let parameters = vec![
            builtin_parameter("禁用XSS审计", "--disable-xss-auditor", ParameterCategory::Security, "禁用XSS保护机制", None, true),
            builtin_parameter("允许所有来源", "--disable-features=VizDisplayCompositor", ParameterCategory::Security, "允许来自所有来源的请求", None, true),
            builtin_parameter("忽略SSL错误", "--ignore-ssl-errors", ParameterCategory::Security, "忽略所有SSL错误", None, true),
            builtin_parameter("禁用同源策略", "--disable-web-security", ParameterCategory::Security, "禁用Web安全策略", None, true),
        ];
        ParameterTemplate {
            id: String::from_str("security_testing"),
            name: String::from_str("安全测试"),
            description: String::from_str("用于安全测试的浏览器配置"),
            category: TemplateCategory::Security,
            parameters,
            is_builtin: true,
        }
    }
}

} // verus!
