use whiskey::config::{Config, Package};

fn package(name: &str) -> Package {
    Package {
        name: String::from(name),
        path: String::from("src/main.whi"),
        version: Some(String::from("0.1.0")),
        description: None,
        author: None,
        license: None,
    }
}

#[test]
fn output_file_name_appends_the_module_extension() {
    assert_eq!(package("hello").output_file_name(), "hello.wasm");
    assert_eq!(package("").output_file_name(), ".wasm");
}

#[test]
fn config_carries_its_package() {
    let config = Config { package: package("demo") };
    assert_eq!(config.package.name, "demo");
    assert_eq!(config.package.path, "src/main.whi");
    assert_eq!(config.package.output_file_name(), "demo.wasm");
}
