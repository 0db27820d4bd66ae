//! The per-file transformer state and its driver-facing surface.
//!
//! A driver walking one source file constructs an `EmotionTransformer`,
//! feeds it every import declaration, and asks it, per call expression,
//! whether the call gets a stable class name and what that name is.  The
//! filesystem walk that resolving a package root needs stays with the
//! driver, through the probe protocol of `crate::resolver`.

use vstd::prelude::*;
use vstd::string::StringExecFns;

use crate::label::generate_stable_identifier;
use crate::label::spec_label;
use crate::paths::relative_fragment;
use crate::paths::spec_fragment;
use crate::paths::view_opt_string;
use crate::registry::apply_import;
use crate::registry::duplicate_configs;
use crate::registry::official_libraries;
use crate::registry::spec_apply_configs;
use crate::registry::spec_react_config;
use crate::registry::spec_record_import;
use crate::registry::spec_styled_config;
use crate::registry::EmotionModuleConfig;
use crate::registry::ImportDeclInfo;
use crate::registry::ModuleConfigView;
use crate::registry::PackageMeta;
use crate::resolver::RootPathInfo;
use crate::str_map::StrMap;

verus! {

/// The transform's user-facing options.
pub struct EmotionOptions {
    pub enabled: Option<bool>,
    pub sourcemap: Option<bool>,
    pub auto_label: Option<bool>,
    pub label_format: Option<String>,
    pub auto_inject: Option<bool>,
    pub custom_modules: Option<Vec<EmotionModuleConfig>>,
    pub jsx_factory: Option<String>,
    pub jsx_import_source: Option<String>,
}

impl Default for EmotionOptions {
    fn default() -> (r: Self)
        ensures
            r.enabled == Some(false),
            r.sourcemap == Some(true),
            r.auto_label == Some(true),
            r.label_format matches Some(f) && f@ == "[local]"@,
            r.auto_inject == Some(true),
            r.custom_modules is None,
            r.jsx_factory is None,
            r.jsx_import_source matches Some(s) && s@ == "@emotion/react"@,
    {
        EmotionOptions {
            enabled: Some(false),
            sourcemap: Some(true),
            auto_label: Some(true),
            label_format: Some(String::from_str("[local]")),
            auto_inject: Some(true),
            custom_modules: None,
            jsx_factory: None,
            jsx_import_source: Some(String::from_str("@emotion/react")),
        }
    }
}

/// Where the driver splices the generated property into a recognized call.
pub enum SpliceAction {
    /// One argument: append a fresh object argument holding the property.
    AppendObjectArgument,
    /// Two arguments, the second an object literal: push the property into
    /// it.
    PushIntoSecondArgument,
    /// Any other shape: splice nothing (the counter advances regardless).
    Nothing,
}

/// The splice each call shape receives.
pub fn splice_plan(n_args: usize, second_is_object_literal: bool) -> (r: SpliceAction)
    ensures
        n_args == 1 ==> r == SpliceAction::AppendObjectArgument,
        n_args == 2 && second_is_object_literal ==> r == SpliceAction::PushIntoSecondArgument,
        n_args != 1 && !(n_args == 2 && second_is_object_literal) ==> r == SpliceAction::Nothing,
{
    if n_args == 1 {
        SpliceAction::AppendObjectArgument
    } else if n_args == 2 && second_is_object_literal {
        SpliceAction::PushIntoSecondArgument
    } else {
        SpliceAction::Nothing
    }
}

/// The package name a resolved (or unresolved) root contributes to a label.
pub open spec fn spec_label_package(root: Option<RootPathInfo>) -> Seq<char> {
    match root {
        Some(info) => info.package_name@,
        None => Seq::<char>::empty(),
    }
}

/// The fragment a resolved (or unresolved) root contributes to a label: an
/// unresolved file stands as its own root, so its fragment is `root`.
pub open spec fn spec_label_fragment(root: Option<RootPathInfo>, file: Seq<char>) -> Seq<char> {
    match root {
        Some(info) => spec_fragment(info.root_path@, file),
        None => spec_fragment(file, file),
    }
}

/// One file's transformer pass: the recognized-import registry, the per-file
/// label counter, and the file's identity.
pub struct EmotionTransformer {
    pub options: EmotionOptions,
    modules: Vec<EmotionModuleConfig>,
    import_packages: StrMap<PackageMeta>,
    emotion_target_class_name_count: usize,
    real_file_path: Option<String>,
    source_text: String,
    _react_jsx_runtime: bool,
    _es_module_interop: bool,
}

impl EmotionTransformer {
    /// The options the pass was constructed with.
    pub closed spec fn options_spec(&self) -> EmotionOptions {
        self.options
    }

    /// The recognized bindings of the current file.
    pub closed spec fn registry(&self) -> Map<Seq<char>, PackageMeta> {
        self.import_packages@
    }

    /// The module configurations consulted, built-ins first.
    pub closed spec fn modules_view(&self) -> Seq<ModuleConfigView> {
        self.modules.deep_view()
    }

    /// The per-file counter: the sequence number the next label embeds.
    pub closed spec fn counter(&self) -> nat {
        self.emotion_target_class_name_count as nat
    }

    /// The real on-disk path of the file, when it has one representable as
    /// text.
    pub closed spec fn file_path_view(&self) -> Option<Seq<char>> {
        view_opt_string(self.real_file_path)
    }

    /// The file's source text, the degraded fallback's fragment input.
    pub closed spec fn source_text_view(&self) -> Seq<char> {
        self.source_text@
    }

    /// Well-formedness of the registry.
    pub closed spec fn wf(&self) -> bool {
        self.import_packages.wf()
    }

    /// A fresh pass over one file: empty registry, counter at zero, and the
    /// module list holding the two built-ins followed by the user's custom
    /// modules in their declared order.
    pub fn new(
        options: EmotionOptions,
        real_file_path: Option<String>,
        source_text: String,
        react_jsx_runtime: bool,
        es_module_interop: bool,
    ) -> (r: Self)
        ensures
            r.wf(),
            r.options_spec() == options,
            r.registry() == Map::<Seq<char>, PackageMeta>::empty(),
            r.counter() == 0,
            r.file_path_view() == view_opt_string(real_file_path),
            r.source_text_view() == source_text@,
            r.modules_view() == seq![spec_styled_config(), spec_react_config()] + (
            match options.custom_modules {
                Some(v) => v.deep_view(),
                None => Seq::<ModuleConfigView>::empty(),
            }),
    {
        let mut modules = official_libraries();
        let ghost officials = modules.deep_view();
        match &options.custom_modules {
            Some(customs) => {
                let mut extra = duplicate_configs(customs);
                let ghost extra_view = extra.deep_view();
                modules.append(&mut extra);
                proof {
                    assert(modules.deep_view() =~= officials + extra_view) by {
                        assert forall|t: int| 0 <= t < modules@.len() implies #[trigger] modules.deep_view()[
                            t
                        ] == (officials + extra_view)[t] by {}
                    }
                }
            },
            None => {},
        }
        EmotionTransformer {
            options,
            modules,
            import_packages: StrMap::new(),
            emotion_target_class_name_count: 0,
            real_file_path,
            source_text,
            _react_jsx_runtime: react_jsx_runtime,
            _es_module_interop: es_module_interop,
        }
    }

    /// Registers the bindings one non-type-only import declaration brings in,
    /// against built-ins first and custom modules after.
    fn generate_import_info(&mut self, decl: &ImportDeclInfo)
        requires
            old(self).wf(),
        ensures
            final (self).wf(),
            final (self).registry() == spec_apply_configs(
                old(self).registry(),
                old(self).modules_view(),
                decl.src@,
                decl.specifiers@,
            ),
            final (self).options_spec() == old(self).options_spec(),
            final (self).modules_view() == old(self).modules_view(),
            final (self).counter() == old(self).counter(),
            final (self).file_path_view() == old(self).file_path_view(),
            final (self).source_text_view() == old(self).source_text_view(),
    {
        apply_import(&mut self.import_packages, &self.modules, decl);
    }

    /// Records one import declaration; a type-only import leaves the registry
    /// untouched, so later calls through its bindings stay untransformed.
    pub fn fold_import_decl(&mut self, decl: &ImportDeclInfo)
        requires
            old(self).wf(),
        ensures
            final (self).wf(),
            final (self).registry() == spec_record_import(
                old(self).registry(),
                old(self).modules_view(),
                *decl,
            ),
            final (self).options_spec() == old(self).options_spec(),
            final (self).modules_view() == old(self).modules_view(),
            final (self).counter() == old(self).counter(),
            final (self).file_path_view() == old(self).file_path_view(),
            final (self).source_text_view() == old(self).source_text_view(),
    {
        if decl.type_only {
            return ;
        }
        self.generate_import_info(decl);
    }

    /// How many class names this pass has generated so far: the sequence
    /// number the next label will embed.
    pub fn class_name_count(&self) -> (n: usize)
        ensures
            n == self.counter(),
    {
        self.emotion_target_class_name_count
    }

    /// Whether `local` names a recognized styling entry point in this file.
    pub fn is_recognized(&self, local: &String) -> (b: bool)
        requires
            self.wf(),
        ensures
            b == self.registry().contains_key(local@),
    {
        self.import_packages.contains(local)
    }

    /// Whether a call whose callee is the plain identifier `callee_local`
    /// with `n_args` arguments receives a stable class name: the callee must
    /// be recognized, the call must have arguments, and the file must be a
    /// real file with a textual path.
    pub fn should_transform_call(&self, callee_local: &String, n_args: usize) -> (b: bool)
        requires
            self.wf(),
        ensures
            b == (self.registry().contains_key(callee_local@) && n_args > 0
                && self.file_path_view() is Some),
    {
        if n_args == 0 {
            return false;
        }
        if self.real_file_path.is_none() {
            return false;
        }
        self.import_packages.contains(callee_local)
    }

    /// Computes the stable class name for the current call site from the
    /// resolver's outcome and advances the per-file counter.  The label
    /// embeds the counter value before the call; the counter strictly
    /// increases, so within one file no sequence number is ever reused.
    pub fn generate_class_name(&mut self, root: Option<RootPathInfo>) -> (r: String)
        requires
            old(self).wf(),
            old(self).file_path_view() is Some,
            old(self).counter() < usize::MAX,
        ensures
            final (self).wf(),
            r@ == spec_label(
                spec_label_package(root),
                spec_label_fragment(root, old(self).file_path_view()->0),
                old(self).counter(),
            ),
            final (self).counter() == old(self).counter() + 1,
            final (self).registry() == old(self).registry(),
            final (self).options_spec() == old(self).options_spec(),
            final (self).modules_view() == old(self).modules_view(),
            final (self).file_path_view() == old(self).file_path_view(),
            final (self).source_text_view() == old(self).source_text_view(),
    {
        let label = match (&root, &self.real_file_path) {
            (Some(info), Some(file)) => {
                let pkg = info.package_name.clone();
                let frag = relative_fragment(&info.root_path, file);
                generate_stable_identifier(&pkg, &frag, self.emotion_target_class_name_count)
            },
            (None, Some(file)) => {
                let pkg = String::new();
                let frag = relative_fragment(file, file);
                generate_stable_identifier(&pkg, &frag, self.emotion_target_class_name_count)
            },
            (_, None) => vstd::pervasive::unreached(),
        };
        self.emotion_target_class_name_count = self.emotion_target_class_name_count + 1;
        label
    }

    /// The degraded fallback for a file whose path or root cannot be
    /// represented as text: the fragment input is the file's whole source
    /// text.  Deterministic, and it advances the counter like the normal
    /// path.
    pub fn generate_class_name_degraded(&mut self, package_name: &String) -> (r: String)
        requires
            old(self).wf(),
            old(self).counter() < usize::MAX,
        ensures
            final (self).wf(),
            r@ == spec_label(package_name@, old(self).source_text_view(), old(self).counter()),
            final (self).counter() == old(self).counter() + 1,
            final (self).registry() == old(self).registry(),
            final (self).options_spec() == old(self).options_spec(),
            final (self).modules_view() == old(self).modules_view(),
            final (self).file_path_view() == old(self).file_path_view(),
            final (self).source_text_view() == old(self).source_text_view(),
    {
        let frag = self.source_text.clone();
        let label = generate_stable_identifier(
            package_name,
            &frag,
            self.emotion_target_class_name_count,
        );
        self.emotion_target_class_name_count = self.emotion_target_class_name_count + 1;
        label
    }
}

} // verus!
