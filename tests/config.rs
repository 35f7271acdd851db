use mktcb::config::{make_config_path, resolve_jobs, target_config_path, toolchain_config_path, ComponentConfig};
use mktcb::error::Error;
use mktcb::urls::url_last;

#[test]
fn descriptor_paths() {
    assert_eq!(target_config_path("/lib", "board"), "/lib/targets/board.toml");
    assert_eq!(toolchain_config_path("/lib", "arm"), "/lib/toolchains/arm.toml");
}

#[test]
fn build_configuration_path() {
    let item = ComponentConfig { version: "5.4".to_string(), config: Some("board.config".to_string()) };
    assert_eq!(make_config_path("/lib", "linux", &item), Some("/lib/configs/linux/5.4/board.config".to_string()));
    let none = ComponentConfig { version: "5.4".to_string(), config: None };
    assert_eq!(make_config_path("/lib", "linux", &none), None);
}

#[test]
fn job_count() {
    assert_eq!(resolve_jobs(None, 4), Ok(6));
    assert_eq!(resolve_jobs(None, usize::MAX), Ok(usize::MAX));
    assert_eq!(resolve_jobs(Some("8"), 4), Ok(8));
    assert_eq!(resolve_jobs(Some("0"), 4), Err(Error::ZeroJob));
    assert_eq!(resolve_jobs(Some("many"), 4), Err(Error::InvalidJobNumber { value: "many".to_string() }));
    assert!(mktcb::config::jobs_setting(None).unwrap() >= 3);
}

#[test]
fn last_url_component() {
    assert_eq!(url_last("https://a.org/x/y.tar.xz"), Ok("y.tar.xz".to_string()));
    assert_eq!(
        url_last("data:text/plain,hi"),
        Err(Error::URLExtractError { url: "data:text/plain,hi".to_string() })
    );
}
