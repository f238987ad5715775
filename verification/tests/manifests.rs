use nanuak_dictionary::cargo_toml::{
    add_workspace_member, apply_file_changes_for_new_version_name, rename_package, CargoToml,
    CargoTomlError, Dependencies, Dependency, Package, Workspace,
};

fn package(name: &str) -> Package {
    Package { name: name.to_string(), version: "0.1.0".to_string(), edition: "2021".to_string() }
}

fn crate_manifest(name: &str) -> CargoToml {
    CargoToml {
        package: Some(package(name)),
        workspace: None,
        dependencies: Some(Dependencies(vec![(
            "eyre".to_string(),
            Dependency::Other("\"0.6\"".to_string()),
        )])),
        dev_dependencies: None,
    }
}

fn workspace_manifest(members: &[&str]) -> CargoToml {
    CargoToml {
        package: None,
        workspace: Some(Workspace {
            members: members.iter().map(|m| m.to_string()).collect(),
            dependencies: Dependencies(
                members
                    .iter()
                    .map(|m| {
                        (
                            m.to_string(),
                            Dependency::Path { path: m.to_string(), features: None },
                        )
                    })
                    .collect(),
            ),
        }),
        dependencies: None,
        dev_dependencies: None,
    }
}

#[test]
fn adding_a_member_registers_it_and_its_path() {
    let changed = add_workspace_member(workspace_manifest(&["v1", "v2"]), "v3").unwrap();
    let ws = changed.workspace.unwrap();
    assert_eq!(ws.members, vec!["v1", "v2", "v3"]);
    let names: Vec<&str> = ws.dependencies.0.iter().map(|(k, _)| k.as_str()).collect();
    assert_eq!(names, vec!["v1", "v2", "v3"]);
    match &ws.dependencies.0[2].1 {
        Dependency::Path { path, features } => {
            assert_eq!(path, "v3");
            assert!(features.is_none());
        }
        other => panic!("unexpected {other:?}"),
    }
}

#[test]
fn adding_an_existing_dependency_fails() {
    let r = add_workspace_member(workspace_manifest(&["v1", "v2"]), "v2");
    assert_eq!(r.err(), Some(CargoTomlError::DependencyAlreadyExists));
}

#[test]
fn adding_a_member_needs_a_workspace() {
    let r = add_workspace_member(crate_manifest("v1"), "v2");
    assert_eq!(r.err(), Some(CargoTomlError::NoWorkspace));
}

#[test]
fn renaming_the_package_keeps_the_rest() {
    let changed = rename_package(crate_manifest("v2-old"), "v3-new").unwrap();
    let p = changed.package.unwrap();
    assert_eq!(p.name, "v3-new");
    assert_eq!(p.version, "0.1.0");
    assert_eq!(p.edition, "2021");
    assert_eq!(changed.dependencies.unwrap().0.len(), 1);
}

#[test]
fn renaming_needs_a_package() {
    let r = rename_package(workspace_manifest(&["v1"]), "v3");
    assert_eq!(r.err(), Some(CargoTomlError::MissingPackage));
}

#[test]
fn applying_the_new_version_name_renames_the_package() {
    let changed = apply_file_changes_for_new_version_name(crate_manifest("v2"), "v3-new").unwrap();
    let p = changed.package.unwrap();
    assert_eq!(p.name, "v3-new");
    assert_eq!(p.version, "0.1.0");
    assert_eq!(p.edition, "2021");
    assert_eq!(changed.dependencies.unwrap().0.len(), 1);
    let r = apply_file_changes_for_new_version_name(workspace_manifest(&[]), "v3");
    assert_eq!(r.err(), Some(CargoTomlError::MissingPackage));
}
