//! Rule construction: the match condition and the ordered effects list.

use crate::config::NextConfig;
use crate::error::TransformError;
use crate::fs_path::FileSystemPathRef;
use crate::transform::NextJsReactServerComponents;
use vstd::prelude::*;

verus! {

/// The module kinds the match predicate distinguishes.
#[derive(Debug, Clone, Copy, PartialEq, Eq, Structural)]
pub enum ModuleKind {
    /// A script module: JavaScript or TypeScript source.
    Script,
    /// A markup module handled only in the alternate markup-extension
    /// mode.
    Markup,
    /// Any other asset the pipeline carries.
    Asset,
}

/// What the rule's match predicate sees of a candidate module.
#[derive(Debug, Clone, Copy, PartialEq, Eq, Structural)]
pub struct ModuleDescriptor {
    /// The module's kind.
    pub kind: ModuleKind,
    /// Whether the module is an external asset identified by a URL-style
    /// reference.
    pub referenced_by_url: bool,
}

/// A rule's match condition over candidate modules.
#[derive(Debug, Clone, Copy, PartialEq, Eq, Structural)]
pub struct MatchCondition {
    /// Whether the alternate markup-extension mode is enabled, extending
    /// the match to markup modules.
    pub enable_alternate_markup: bool,
}

impl MatchCondition {
    /// Which modules the condition accepts: never external assets
    /// referenced by URL; script modules always; markup modules exactly
    /// when the alternate markup-extension mode is enabled.
    pub open spec fn spec_accepts(&self, m: ModuleDescriptor) -> bool {
        &&& !m.referenced_by_url
        &&& (m.kind is Script || (m.kind is Markup && self.enable_alternate_markup))
    }

    /// Evaluates the match condition on one module.
    pub fn accepts(&self, m: &ModuleDescriptor) -> (r: bool)
        ensures
            r == self.spec_accepts(*m),
    {
        if m.referenced_by_url {
            false
        } else {
            match m.kind {
                ModuleKind::Script => true,
                ModuleKind::Markup => self.enable_alternate_markup,
                ModuleKind::Asset => false,
            }
        }
    }
}

/// Builds the match condition for script and markup modules that are not
/// URL-referenced external assets, honoring the markup-extension mode
/// flag.
pub fn module_rule_match_js_no_url(enable_mdx_rs: bool) -> (r: MatchCondition)
    ensures
        r == (MatchCondition { enable_alternate_markup: enable_mdx_rs }),
{
    MatchCondition { enable_alternate_markup: enable_mdx_rs }
}

/// One transform plugin registered in a rule's effects list.
#[derive(Debug, Clone, PartialEq, Eq)]
pub enum TransformPlugin {
    /// The React server components transform unit built by this crate.
    ReactServerComponents(NextJsReactServerComponents),
    /// An opaque caller-supplied transform unit; the tag identifies the
    /// caller's unit and is never interpreted here.
    Custom(u64),
}

/// One transform over a module's tree, as the pipeline registers it.
#[derive(Debug, Clone, PartialEq, Eq)]
pub enum EcmascriptInputTransform {
    /// A plugin transform run over the module tree.
    Plugin(TransformPlugin),
}

/// An effect a rule applies to every matching module.
#[derive(Debug, Clone, PartialEq, Eq)]
pub enum ModuleRuleEffect {
    /// Extend the module's existing transform chain: `prepend` runs before
    /// all previously configured transforms, `append` after them.
    ExtendEcmascriptTransforms {
        prepend: Vec<EcmascriptInputTransform>,
        append: Vec<EcmascriptInputTransform>,
    },
}

/// A rule attached to the module pipeline: a match condition plus the
/// ordered effects applied to every matching module.
#[derive(Debug, Clone, PartialEq, Eq)]
pub struct ModuleRule {
    /// Which modules the rule applies to.
    pub condition: MatchCondition,
    /// The effects, in application order.
    pub effects: Vec<ModuleRuleEffect>,
}

/// The ordered transform list a built rule prepends: the primary unit
/// first, then the chained unit when present. Declaration order is
/// observable — it fixes rewrite sequencing over a shared tree.
pub open spec fn spec_transform_list(
    primary: NextJsReactServerComponents,
    chain: Option<TransformPlugin>,
) -> Seq<EcmascriptInputTransform> {
    match chain {
        Option::None => seq![
            EcmascriptInputTransform::Plugin(TransformPlugin::ReactServerComponents(primary)),
        ],
        Option::Some(c) => seq![
            EcmascriptInputTransform::Plugin(TransformPlugin::ReactServerComponents(primary)),
            EcmascriptInputTransform::Plugin(c),
        ],
    }
}

/// Law: with no chained transform, the built transform list has exactly
/// one entry — the primary unit.
pub proof fn lemma_transform_list_without_chain(primary: NextJsReactServerComponents)
    ensures
        spec_transform_list(primary, Option::None).len() == 1,
        spec_transform_list(primary, Option::None)[0] == EcmascriptInputTransform::Plugin(
            TransformPlugin::ReactServerComponents(primary),
        ),
{
}

/// Law: with a chained transform, the built transform list has exactly two
/// entries, the primary unit first and the chained unit second — never
/// reversed.
pub proof fn lemma_transform_list_with_chain(
    primary: NextJsReactServerComponents,
    chained: TransformPlugin,
)
    ensures
        spec_transform_list(primary, Option::Some(chained)).len() == 2,
        spec_transform_list(primary, Option::Some(chained))[0] == EcmascriptInputTransform::Plugin(
            TransformPlugin::ReactServerComponents(primary),
        ),
        spec_transform_list(primary, Option::Some(chained))[1] == EcmascriptInputTransform::Plugin(
            chained,
        ),
{
}

/// Returns a rule which applies the React server components transform.
///
/// The rule matches script and markup modules that are not URL-referenced
/// externals, and prepends to each matching module's transform chain one
/// primary transform unit built from `is_react_server_layer` and
/// `app_dir`, followed by `chain_transformer` when present. Building fails
/// exactly when the configuration's markup-extension flag cannot be read.
pub fn get_next_react_server_components_transform_rule(
    next_config: &NextConfig,
    app_dir: Option<FileSystemPathRef>,
    is_react_server_layer: bool,
    chain_transformer: Option<TransformPlugin>,
) -> (r: Result<ModuleRule, TransformError>)
    ensures
        r is Ok <==> next_config.mdx_rs is Some,
        next_config.mdx_rs is None ==> r == Err::<ModuleRule, TransformError>(
            TransformError::ConfigRead,
        ),
        r matches Ok(rule) ==> {
            &&& rule.condition == (MatchCondition {
                enable_alternate_markup: next_config.mdx_rs->0,
            })
            &&& rule.effects@.len() == 1
            &&& rule.effects@[0] matches ModuleRuleEffect::ExtendEcmascriptTransforms {
                prepend,
                append,
            } && prepend@ == spec_transform_list(
                (NextJsReactServerComponents { is_react_server_layer, app_dir }),
                chain_transformer,
            ) && append@.len() == 0
        },
{
    let mdx_rs = match next_config.mdx_rs() {
        Ok(v) => v,
        Err(e) => {
            return Err(e);
        },
    };
    let primary = NextJsReactServerComponents::new(is_react_server_layer, app_dir);
    let ghost primary_spec = primary;
    let mut transformers: Vec<EcmascriptInputTransform> = Vec::new();
    transformers.push(
        EcmascriptInputTransform::Plugin(TransformPlugin::ReactServerComponents(primary)),
    );
    match chain_transformer {
        None => {},
        Some(c) => transformers.push(EcmascriptInputTransform::Plugin(c)),
    }
    proof {
        assert(transformers@ =~= spec_transform_list(primary_spec, chain_transformer));
    }
    let append: Vec<EcmascriptInputTransform> = Vec::new();
    let mut effects: Vec<ModuleRuleEffect> = Vec::new();
    effects.push(ModuleRuleEffect::ExtendEcmascriptTransforms { prepend: transformers, append });
    Ok(ModuleRule { condition: module_rule_match_js_no_url(mdx_rs), effects })
}

} // verus!
