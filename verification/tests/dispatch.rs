use notion_core::error::ErrorDetails;
use notion_core::run::{check_npm_install, command, CommandArg, PlatformImage, ToolCommand};

fn args(list: &[&str]) -> Vec<String> {
    list.iter().map(|s| s.to_string()).collect()
}

#[test]
fn global_install_is_recognized_with_flag_after_command() {
    let r = check_npm_install(&args(&["npm", "install", "-g", "left-pad"]));
    assert_eq!(r, CommandArg::GlobalAdd(Some("left-pad".to_string())));
}

#[test]
fn global_install_is_recognized_with_flag_before_command() {
    let r = check_npm_install(&args(&["npm", "-g", "install", "left-pad"]));
    assert_eq!(r, CommandArg::GlobalAdd(Some("left-pad".to_string())));
}

#[test]
fn long_global_flag_counts_too() {
    let r = check_npm_install(&args(&["npm", "isntall", "--global", "x"]));
    assert_eq!(r, CommandArg::GlobalAdd(Some("x".to_string())));
}

#[test]
fn all_install_spellings_are_accepted() {
    for spelling in ["install", "i", "isntall", "add"] {
        let r = check_npm_install(&args(&["npm", "-g", spelling, "pkg"]));
        assert_eq!(
            r,
            CommandArg::GlobalAdd(Some("pkg".to_string())),
            "spelling {} not accepted",
            spelling
        );
    }
}

#[test]
fn bare_global_install_has_no_package() {
    let r = check_npm_install(&args(&["npm", "i", "-g"]));
    assert_eq!(r, CommandArg::GlobalAdd(None));
}

#[test]
fn non_install_command_is_not_intercepted() {
    let r = check_npm_install(&args(&["npm", "run", "build"]));
    assert_eq!(r, CommandArg::NotGlobalAdd);
}

#[test]
fn local_install_without_global_flag_is_not_intercepted() {
    let r = check_npm_install(&args(&["npm", "install", "left-pad"]));
    assert_eq!(r, CommandArg::NotGlobalAdd);
}

#[test]
fn global_run_is_not_an_install() {
    let r = check_npm_install(&args(&["npm", "-g", "run", "build"]));
    assert_eq!(r, CommandArg::NotGlobalAdd);
}

#[test]
fn command_without_platform_passes_through() {
    let r = command(&None, true, &args(&["npm", "-g", "install", "left-pad"]));
    assert_eq!(
        r,
        Ok(ToolCommand::Passthrough {
            tool: "npm".to_string(),
            error: ErrorDetails::NoPlatform
        })
    );
}

#[test]
fn command_with_platform_intercepts_global_install() {
    let platform = Some(PlatformImage {
        path: "/home/user/.notion/tools/image/node/18.19.0/bin".to_string(),
    });
    let r = command(&platform, true, &args(&["npm", "install", "-g", "left-pad"]));
    assert_eq!(
        r,
        Err(ErrorDetails::NoGlobalInstalls {
            package: Some("left-pad".to_string())
        })
    );
}

#[test]
fn command_with_platform_runs_managed_binary() {
    let platform = Some(PlatformImage {
        path: "/home/user/.notion/tools/image/node/18.19.0/bin".to_string(),
    });
    let r = command(&platform, true, &args(&["npm", "run", "build"]));
    assert_eq!(
        r,
        Ok(ToolCommand::Direct {
            tool: "npm".to_string(),
            path: "/home/user/.notion/tools/image/node/18.19.0/bin".to_string()
        })
    );
}

#[test]
fn interception_disabled_lets_global_install_run_managed() {
    let platform = Some(PlatformImage {
        path: "/opt/toolchain/bin".to_string(),
    });
    let r = command(&platform, false, &args(&["npm", "-g", "install", "left-pad"]));
    assert_eq!(
        r,
        Ok(ToolCommand::Direct {
            tool: "npm".to_string(),
            path: "/opt/toolchain/bin".to_string()
        })
    );
}
