use tauri_release::cli::PackageManager;
use tauri_release::project::{
    detect_metadata, detect_package_manager, CargoPackage, CargoToml, PackageJson, TauriConfig,
};

fn names(v: &[&str]) -> Vec<String> {
    v.iter().map(|s| s.to_string()).collect()
}

#[test]
fn lockfiles_pick_the_package_manager() {
    assert_eq!(detect_package_manager(&names(&["pnpm-lock.yaml"])), PackageManager::Pnpm);
    assert_eq!(detect_package_manager(&names(&["pnpm-workspace.yaml"])), PackageManager::Pnpm);
    assert_eq!(detect_package_manager(&names(&["package-lock.json"])), PackageManager::Npm);
    assert_eq!(detect_package_manager(&names(&["yarn.lock"])), PackageManager::Yarn);
    assert_eq!(detect_package_manager(&names(&["bun.lockb"])), PackageManager::Bun);
    assert_eq!(detect_package_manager(&names(&["bun.lock"])), PackageManager::Bun);
    assert_eq!(detect_package_manager(&names(&[])), PackageManager::Pnpm);
    assert_eq!(
        detect_package_manager(&names(&["yarn.lock", "package-lock.json"])),
        PackageManager::Npm
    );
    assert_eq!(
        detect_package_manager(&names(&["bun.lock", "pnpm-lock.yaml"])),
        PackageManager::Pnpm
    );
}

#[test]
fn metadata_defaults_without_sources() {
    let m = detect_metadata(None, None, None, &names(&[]), None, None, None);
    assert_eq!(m.display_name, "tauri-app");
    assert_eq!(m.version, "0.0.0");
    assert_eq!(m.package_manager, PackageManager::Pnpm);
}

#[test]
fn metadata_precedence() {
    let tauri = TauriConfig { product_name: Some("Tauri Name".to_string()), version: None };
    let pkg = PackageJson { name: Some("pkg-name".to_string()), version: Some("1.2.3".to_string()) };
    let cargo = CargoToml {
        package: Some(CargoPackage { name: Some("crate".to_string()), version: Some("9.9.9".to_string()) }),
    };
    let m = detect_metadata(
        None,
        None,
        None,
        &names(&["yarn.lock"]),
        Some(pkg.clone()),
        Some(cargo.clone()),
        Some(tauri.clone()),
    );
    assert_eq!(m.display_name, "Tauri Name");
    assert_eq!(m.version, "1.2.3");
    assert_eq!(m.package_manager, PackageManager::Yarn);

    let m = detect_metadata(
        Some("Override".to_string()),
        Some("2.0.0".to_string()),
        Some(PackageManager::Bun),
        &names(&["yarn.lock"]),
        Some(pkg),
        Some(cargo.clone()),
        Some(tauri),
    );
    assert_eq!(m.display_name, "Override");
    assert_eq!(m.version, "2.0.0");
    assert_eq!(m.package_manager, PackageManager::Bun);

    let m = detect_metadata(None, None, None, &names(&[]), None, Some(cargo), None);
    assert_eq!(m.display_name, "crate");
    assert_eq!(m.version, "9.9.9");
}
