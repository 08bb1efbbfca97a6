use cairo_core::wasm_cairo_interface::{
    setup_single_file_project_with_input_string, starknet_wasm_compile_with_input_string,
    ListSelector, ProjectSetup,
};

#[test]
fn single_file_projects() {
    assert_eq!(
        setup_single_file_project_with_input_string("astro"),
        ProjectSetup::SingleFile { crate_name: "astro".to_string() }
    );
    assert_eq!(setup_single_file_project_with_input_string("lib"), ProjectSetup::CrateRoot);
}

#[test]
fn allowed_libfunc_lists() {
    assert_eq!(ListSelector::new(None, None), Some(ListSelector::DefaultList));
    assert_eq!(
        ListSelector::new(Some("audited".to_string()), None),
        Some(ListSelector::ListName("audited".to_string()))
    );
    assert_eq!(
        ListSelector::new(None, Some("list.json".to_string())),
        Some(ListSelector::ListFile("list.json".to_string()))
    );
    assert_eq!(ListSelector::new(Some("a".to_string()), Some("b".to_string())), None);
}

#[test]
fn starknet_compile_requests() {
    let request = starknet_wasm_compile_with_input_string(
        "astro",
        true,
        Some("astro::Contract".to_string()),
        None,
        Some("list.json".to_string()),
    );
    assert_eq!(request.module_name, "astro");
    assert!(request.replace_ids);
    assert_eq!(request.contract_path, Some("astro::Contract".to_string()));
    assert_eq!(request.allowed_libfuncs_list, ListSelector::ListFile("list.json".to_string()));
    let plain = starknet_wasm_compile_with_input_string("other", false, None, None, None);
    assert_eq!(plain.allowed_libfuncs_list, ListSelector::DefaultList);
    assert_eq!(plain.contract_path, None);
}
