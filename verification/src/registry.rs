//! The import-usage registry.
//!
//! Per file, the transform records which local binding names refer to
//! recognized styling-library exports.  An import declaration is compared,
//! by exact module-name match, against the built-in module list and then the
//! user-supplied custom modules, in declaration order; for every matching
//! configuration each specifier may register its local name.  A later match
//! overwrites an earlier binding for the same local name.

use vstd::prelude::*;
use vstd::string::StringExecFns;

use crate::str_map::StrMap;

verus! {

broadcast use vstd::std_specs::vec::vec_clone_deep_view_proof;

/// The binding form an import brought a name into scope with.
#[derive(Clone, Copy, Debug)]
pub enum ImportType {
    Named,
    Namespace,
    Default,
}

impl Default for ImportType {
    fn default() -> (r: Self)
        ensures
            r == ImportType::Named,
    {
        ImportType::Named
    }
}

/// What the registry records of a binding.
#[derive(Clone, Copy, Debug)]
pub struct PackageMeta {
    pub kind: ImportType,
}

impl View for PackageMeta {
    type V = PackageMeta;

    open spec fn view(&self) -> PackageMeta {
        *self
    }
}

/// One recognizable styling module: its exact module name, the exported
/// names it is known by, and whether it exposes a default export.
pub struct EmotionModuleConfig {
    pub module_name: String,
    pub exported_names: Vec<String>,
    pub include_sub_path: Option<bool>,
    pub has_default_export: Option<bool>,
}

/// The mathematical content of an `EmotionModuleConfig`.
pub ghost struct ModuleConfigView {
    pub module_name: Seq<char>,
    pub exported_names: Seq<Seq<char>>,
    pub include_sub_path: Option<bool>,
    pub has_default_export: Option<bool>,
}

impl View for EmotionModuleConfig {
    type V = ModuleConfigView;

    open spec fn view(&self) -> ModuleConfigView {
        ModuleConfigView {
            module_name: self.module_name@,
            exported_names: self.exported_names.deep_view(),
            include_sub_path: self.include_sub_path,
            has_default_export: self.has_default_export,
        }
    }
}

impl DeepView for EmotionModuleConfig {
    type V = ModuleConfigView;

    open spec fn deep_view(&self) -> ModuleConfigView {
        self.view()
    }
}

impl EmotionModuleConfig {
    /// A copy with the same content.
    pub fn duplicate(&self) -> (r: Self)
        ensures
            r@ == self@,
    {
        EmotionModuleConfig {
            module_name: self.module_name.clone(),
            exported_names: self.exported_names.clone(),
            include_sub_path: self.include_sub_path,
            has_default_export: self.has_default_export,
        }
    }
}

/// A copy of a configuration list with the same content.
pub fn duplicate_configs(configs: &Vec<EmotionModuleConfig>) -> (r: Vec<EmotionModuleConfig>)
    ensures
        r.deep_view() == configs.deep_view(),
{
    let mut r: Vec<EmotionModuleConfig> = Vec::new();
    let mut i: usize = 0;
    while i < configs.len()
        invariant
            i <= configs@.len(),
            r.deep_view() == configs.deep_view().take(i as int),
        decreases configs@.len() - i,
    {
        let dup = configs[i].duplicate();
        proof {
            assert(dup.deep_view() == configs.deep_view()[i as int]);
        }
        let ghost pre = r.deep_view();
        let ghost pre_len = r@.len();
        r.push(dup);
        proof {
            assert(r@.len() == pre_len + 1);
            assert(pre.len() == pre_len);
            assert(configs.deep_view().len() == configs@.len());
            assert(pre.len() == i as int);
            assert(pre_len == i as int);
            assert(r.deep_view() =~= configs.deep_view().take(i as int + 1)) by {
                assert forall|t: int| 0 <= t < r@.len() implies #[trigger] r.deep_view()[t]
                    == configs.deep_view().take(i as int + 1)[t] by {
                    if t < pre_len {
                        assert(r.deep_view()[t] == pre[t]);
                        assert(pre[t] == configs.deep_view()[t]);
                    } else {
                        assert(r.deep_view()[t] == configs.deep_view()[i as int]);
                    }
                }
            }
        }
        i = i + 1;
    }
    proof {
        assert(configs.deep_view().take(configs.deep_view().len() as int) =~= configs.deep_view());
    }
    r
}

/// The built-in styling module exposing a default-exported styled factory.
pub open spec fn spec_styled_config() -> ModuleConfigView {
    ModuleConfigView {
        module_name: "@emotion/styled"@,
        exported_names: seq!["styled"@],
        include_sub_path: None,
        has_default_export: Some(true),
    }
}

/// The built-in styling module exposing the named `css` helper.
pub open spec fn spec_react_config() -> ModuleConfigView {
    ModuleConfigView {
        module_name: "@emotion/react"@,
        exported_names: seq!["css"@],
        include_sub_path: None,
        has_default_export: None,
    }
}

/// The two built-in styling modules, in their declaration order.
pub fn official_libraries() -> (r: Vec<EmotionModuleConfig>)
    ensures
        r.deep_view() == seq![spec_styled_config(), spec_react_config()],
{
    let mut styled_names: Vec<String> = Vec::new();
    styled_names.push(String::from_str("styled"));
    let styled = EmotionModuleConfig {
        module_name: String::from_str("@emotion/styled"),
        exported_names: styled_names,
        include_sub_path: None,
        has_default_export: Some(true),
    };
    let mut css_names: Vec<String> = Vec::new();
    css_names.push(String::from_str("css"));
    let react = EmotionModuleConfig {
        module_name: String::from_str("@emotion/react"),
        exported_names: css_names,
        include_sub_path: None,
        has_default_export: None,
    };
    proof {
        assert(styled.exported_names.deep_view() =~= seq![("styled")@]);
        assert(react.exported_names.deep_view() =~= seq![("css")@]);
    }
    let mut r: Vec<EmotionModuleConfig> = Vec::new();
    r.push(styled);
    r.push(react);
    proof {
        assert(r.deep_view() =~= seq![spec_styled_config(), spec_react_config()]);
    }
    r
}

/// One specifier of an import declaration, reduced to the names the registry
/// reads.  A named specifier's `imported` field holds the pre-aliasing
/// exported name when the import is aliased, and nothing otherwise.
pub enum ImportSpecifierInfo {
    Named { local: String, imported: Option<String> },
    Default { local: String },
    Namespace { local: String },
}

/// One import declaration, reduced to what the registry reads: the source
/// module string, whether the import is type-only, and its specifiers.
pub struct ImportDeclInfo {
    pub src: String,
    pub type_only: bool,
    pub specifiers: Vec<ImportSpecifierInfo>,
}

/// The local binding name a specifier would register.
pub open spec fn spec_local_of(s: ImportSpecifierInfo) -> Seq<char> {
    match s {
        ImportSpecifierInfo::Named { local, .. } => local@,
        ImportSpecifierInfo::Default { local } => local@,
        ImportSpecifierInfo::Namespace { local } => local@,
    }
}

/// The binding a specifier registers under configuration `c`: a named
/// specifier only when its pre-aliasing exported name is recognized, a
/// default specifier only when the configuration declares a default export,
/// and a namespace specifier always.
pub open spec fn spec_binding_of(c: ModuleConfigView, s: ImportSpecifierInfo) -> Option<
    PackageMeta,
> {
    match s {
        ImportSpecifierInfo::Named { local, imported } => {
            let source = match imported {
                Some(n) => n@,
                None => local@,
            };
            if c.exported_names.contains(source) {
                Some(PackageMeta { kind: ImportType::Named })
            } else {
                None
            }
        },
        ImportSpecifierInfo::Default { .. } => {
            if c.has_default_export == Some(true) {
                Some(PackageMeta { kind: ImportType::Default })
            } else {
                None
            }
        },
        ImportSpecifierInfo::Namespace { .. } => Some(PackageMeta { kind: ImportType::Namespace }),
    }
}

/// The registry after one specifier is inspected under configuration `c`.
pub open spec fn spec_apply_specifier(
    m: Map<Seq<char>, PackageMeta>,
    c: ModuleConfigView,
    s: ImportSpecifierInfo,
) -> Map<Seq<char>, PackageMeta> {
    match spec_binding_of(c, s) {
        Some(meta) => m.insert(spec_local_of(s), meta),
        None => m,
    }
}

/// The registry after every specifier is inspected under configuration `c`,
/// in order.
pub open spec fn spec_apply_config(
    m: Map<Seq<char>, PackageMeta>,
    c: ModuleConfigView,
    specs: Seq<ImportSpecifierInfo>,
) -> Map<Seq<char>, PackageMeta>
    decreases specs.len(),
{
    if specs.len() == 0 {
        m
    } else {
        spec_apply_specifier(spec_apply_config(m, c, specs.drop_last()), c, specs.last())
    }
}

/// The registry after an import of module `src` with specifiers `specs` is
/// compared against `configs` in order; each configuration whose module name
/// equals `src` is applied, so a later configuration's bindings overwrite an
/// earlier one's.
pub open spec fn spec_apply_configs(
    m: Map<Seq<char>, PackageMeta>,
    configs: Seq<ModuleConfigView>,
    src: Seq<char>,
    specs: Seq<ImportSpecifierInfo>,
) -> Map<Seq<char>, PackageMeta>
    decreases configs.len(),
{
    if configs.len() == 0 {
        m
    } else {
        let prev = spec_apply_configs(m, configs.drop_last(), src, specs);
        if configs.last().module_name == src {
            spec_apply_config(prev, configs.last(), specs)
        } else {
            prev
        }
    }
}

/// The registry after an import declaration is recorded: unchanged when the
/// import is type-only.
pub open spec fn spec_record_import(
    m: Map<Seq<char>, PackageMeta>,
    configs: Seq<ModuleConfigView>,
    decl: ImportDeclInfo,
) -> Map<Seq<char>, PackageMeta> {
    if decl.type_only {
        m
    } else {
        spec_apply_configs(m, configs, decl.src@, decl.specifiers@)
    }
}

/// Whether `x` occurs in `names`.
fn names_contain(names: &Vec<String>, x: &String) -> (b: bool)
    ensures
        b == names.deep_view().contains(x@),
{
    let mut i: usize = 0;
    while i < names.len()
        invariant
            i <= names@.len(),
            forall|t: int| 0 <= t < i ==> #[trigger] names.deep_view()[t] != x@,
        decreases names@.len() - i,
    {
        if names[i].eq(x) {
            proof {
                assert(names.deep_view()[i as int] == x@);
            }
            return true;
        }
        i = i + 1;
    }
    proof {
        assert(!names.deep_view().contains(x@));
    }
    false
}

/// Records one non-type-only import declaration into `registry`, exactly as
/// `spec_apply_configs` states.
#[verifier::loop_isolation(false)]
pub fn apply_import(
    registry: &mut StrMap<PackageMeta>,
    modules: &Vec<EmotionModuleConfig>,
    decl: &ImportDeclInfo,
)
    requires
        old(registry).wf(),
    ensures
        final (registry).wf(),
        final (registry)@ == spec_apply_configs(
            old(registry)@,
            modules.deep_view(),
            decl.src@,
            decl.specifiers@,
        ),
{
    let ghost reg0 = registry@;
    proof {
        assert(modules.deep_view().take(0) =~= Seq::<ModuleConfigView>::empty());
    }
    let mut ci: usize = 0;
    while ci < modules.len()
        invariant
            registry.wf(),
            ci <= modules@.len(),
            registry@ == spec_apply_configs(
                reg0,
                modules.deep_view().take(ci as int),
                decl.src@,
                decl.specifiers@,
            ),
        decreases modules@.len() - ci,
    {
        if modules[ci].module_name.eq(&decl.src) {
            let ghost regc = registry@;
            proof {
                assert(decl.specifiers@.take(0) =~= Seq::<ImportSpecifierInfo>::empty());
            }
            let mut si: usize = 0;
            while si < decl.specifiers.len()
                invariant
                    registry.wf(),
                    si <= decl.specifiers@.len(),
                    registry@ == spec_apply_config(
                        regc,
                        modules.deep_view()[ci as int],
                        decl.specifiers@.take(si as int),
                    ),
                decreases decl.specifiers@.len() - si,
            {
                match &decl.specifiers[si] {
                    ImportSpecifierInfo::Named { local, imported } => {
                        let source: &String = match imported {
                            Some(n) => n,
                            None => local,
                        };
                        if names_contain(&modules[ci].exported_names, source) {
                            registry.set(local.clone(), PackageMeta { kind: ImportType::Named });
                        }
                    },
                    ImportSpecifierInfo::Default { local } => {
                        let has_default: bool = match modules[ci].has_default_export {
                            Some(b) => b,
                            None => false,
                        };
                        if has_default {
                            registry.set(local.clone(), PackageMeta { kind: ImportType::Default });
                        }
                    },
                    ImportSpecifierInfo::Namespace { local } => {
                        registry.set(local.clone(), PackageMeta { kind: ImportType::Namespace });
                    },
                }
                proof {
                    assert(decl.specifiers@.take(si as int + 1).drop_last() =~= decl.specifiers@
                        .take(si as int));
                    assert(decl.specifiers@.take(si as int + 1).last() == decl.specifiers@[si as int]);
                }
                si = si + 1;
            }
            proof {
                assert(decl.specifiers@.take(decl.specifiers@.len() as int) =~= decl.specifiers@);
            }
        }
        proof {
            assert(modules.deep_view().take(ci as int + 1).drop_last() =~= modules.deep_view().take(
                ci as int,
            ));
            assert(modules.deep_view().take(ci as int + 1).last() == modules.deep_view()[ci as int]);
        }
        ci = ci + 1;
    }
    proof {
        assert(modules.deep_view().take(modules.deep_view().len() as int) =~= modules.deep_view());
    }
}

/// An aliased named import is recognized by its pre-aliasing exported name
/// and registered under its local alias, not under the exported name.
pub proof fn lemma_alias_registered(
    m: Map<Seq<char>, PackageMeta>,
    c: ModuleConfigView,
    local: String,
    imported: String,
)
    requires
        c.exported_names.contains(imported@),
    ensures
        spec_apply_specifier(
            m,
            c,
            ImportSpecifierInfo::Named { local, imported: Some(imported) },
        ) == m.insert(local@, PackageMeta { kind: ImportType::Named }),
{
}

/// When a later configuration shares a module name with an earlier one
/// (custom beside built-in, say), the later one is applied last: a binding it
/// registers is what the registry finally holds for that local name.
pub proof fn lemma_later_config_wins(
    m: Map<Seq<char>, PackageMeta>,
    configs: Seq<ModuleConfigView>,
    c: ModuleConfigView,
    src: Seq<char>,
    s: ImportSpecifierInfo,
)
    requires
        c.module_name == src,
        spec_binding_of(c, s) is Some,
    ensures
        spec_apply_configs(m, configs.push(c), src, seq![s]).contains_key(spec_local_of(s)),
        spec_apply_configs(m, configs.push(c), src, seq![s])[spec_local_of(s)] == spec_binding_of(
            c,
            s,
        )->0,
{
    assert(configs.push(c).drop_last() =~= configs);
    assert(configs.push(c).last() == c);
    let prev = spec_apply_configs(m, configs, src, seq![s]);
    assert(seq![s].len() == 1);
    assert(seq![s].last() == s);
    assert(seq![s].drop_last() =~= Seq::<ImportSpecifierInfo>::empty());
    assert(spec_apply_config(prev, c, Seq::<ImportSpecifierInfo>::empty()) == prev);
    assert(spec_apply_config(prev, c, seq![s]) == spec_apply_specifier(prev, c, s));
}

} // verus!
