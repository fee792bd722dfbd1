use rsc_transform::{
    get_next_react_server_components_transform_rule, module_rule_match_js_no_url,
    EcmascriptInputTransform, FileSystemPathRef, MatchCondition, ModuleDescriptor, ModuleKind,
    ModuleRuleEffect, NextConfig, NextJsReactServerComponents, TransformError, TransformPlugin,
};

fn rule_prepend(effect: &ModuleRuleEffect) -> &Vec<EcmascriptInputTransform> {
    let ModuleRuleEffect::ExtendEcmascriptTransforms { prepend, .. } = effect;
    prepend
}

fn rule_append(effect: &ModuleRuleEffect) -> &Vec<EcmascriptInputTransform> {
    let ModuleRuleEffect::ExtendEcmascriptTransforms { append, .. } = effect;
    append
}

#[test]
fn chain_absent_builds_single_entry() {
    let config = NextConfig { mdx_rs: Some(true) };
    let rule = get_next_react_server_components_transform_rule(&config, None, false, None)
        .expect("rule should build");
    assert_eq!(rule.effects.len(), 1);
    let prepend = rule_prepend(&rule.effects[0]);
    assert_eq!(prepend.len(), 1);
    assert!(rule_append(&rule.effects[0]).is_empty());
}

#[test]
fn chain_present_builds_two_entries_in_order() {
    let config = NextConfig { mdx_rs: Some(false) };
    let dir = FileSystemPathRef::Valid(String::from("/proj/app"));
    let rule = get_next_react_server_components_transform_rule(
        &config,
        Some(dir.clone()),
        true,
        Some(TransformPlugin::Custom(42)),
    )
    .expect("rule should build");
    assert_eq!(rule.effects.len(), 1);
    let prepend = rule_prepend(&rule.effects[0]);
    assert_eq!(prepend.len(), 2);
    let expected_primary = EcmascriptInputTransform::Plugin(
        TransformPlugin::ReactServerComponents(NextJsReactServerComponents {
            is_react_server_layer: true,
            app_dir: Some(dir),
        }),
    );
    assert_eq!(prepend[0], expected_primary);
    assert_eq!(
        prepend[1],
        EcmascriptInputTransform::Plugin(TransformPlugin::Custom(42))
    );
    assert!(rule_append(&rule.effects[0]).is_empty());
}

#[test]
fn markup_mode_off_layer_on_scenario() {
    let config = NextConfig { mdx_rs: Some(false) };
    let rule = get_next_react_server_components_transform_rule(&config, None, true, None)
        .expect("rule should build");
    assert_eq!(
        rule.condition,
        MatchCondition {
            enable_alternate_markup: false
        }
    );
    assert_eq!(rule.effects.len(), 1);
    let prepend = rule_prepend(&rule.effects[0]);
    assert_eq!(prepend.len(), 1);
    let EcmascriptInputTransform::Plugin(TransformPlugin::ReactServerComponents(unit)) =
        &prepend[0]
    else {
        panic!("single effect must be the primary transform unit");
    };
    assert!(unit.is_react_server_layer);
    assert_eq!(unit.app_dir, None);
}

#[test]
fn unreadable_config_surfaces_config_read_error() {
    let config = NextConfig { mdx_rs: None };
    let result = get_next_react_server_components_transform_rule(
        &config,
        None,
        false,
        Some(TransformPlugin::Custom(7)),
    );
    assert_eq!(result, Err(TransformError::ConfigRead));
}

#[test]
fn mdx_rs_read_reports_cell_state() {
    assert_eq!(NextConfig { mdx_rs: Some(true) }.mdx_rs(), Ok(true));
    assert_eq!(NextConfig { mdx_rs: Some(false) }.mdx_rs(), Ok(false));
    assert_eq!(
        NextConfig { mdx_rs: None }.mdx_rs(),
        Err(TransformError::ConfigRead)
    );
}

#[test]
fn match_condition_carries_markup_flag() {
    assert_eq!(
        module_rule_match_js_no_url(true),
        MatchCondition {
            enable_alternate_markup: true
        }
    );
    assert_eq!(
        module_rule_match_js_no_url(false),
        MatchCondition {
            enable_alternate_markup: false
        }
    );
}

#[test]
fn match_condition_accepts_scripts_and_gated_markup() {
    let plain = module_rule_match_js_no_url(false);
    let with_markup = module_rule_match_js_no_url(true);
    let script = ModuleDescriptor {
        kind: ModuleKind::Script,
        referenced_by_url: false,
    };
    let markup = ModuleDescriptor {
        kind: ModuleKind::Markup,
        referenced_by_url: false,
    };
    let asset = ModuleDescriptor {
        kind: ModuleKind::Asset,
        referenced_by_url: false,
    };
    let url_script = ModuleDescriptor {
        kind: ModuleKind::Script,
        referenced_by_url: true,
    };
    assert!(plain.accepts(&script));
    assert!(with_markup.accepts(&script));
    assert!(!plain.accepts(&markup));
    assert!(with_markup.accepts(&markup));
    assert!(!plain.accepts(&asset));
    assert!(!with_markup.accepts(&asset));
    assert!(!plain.accepts(&url_script));
    assert!(!with_markup.accepts(&url_script));
}
