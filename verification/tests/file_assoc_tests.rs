use cargo_eval::file_assoc::{
    install_plan, join_pathext, pathext_mentions_crs, pathext_without_crs,
    strip_verbatim_prefix, try_main, uninstall_plan, Args, RegOp,
};

fn parts(items: &[&str]) -> Vec<String> {
    items.iter().map(|s| s.to_string()).collect()
}

#[test]
fn verbatim_prefix_is_stripped() {
    assert_eq!(
        strip_verbatim_prefix("\\\\?\\C:\\tools\\cargo-eval.exe"),
        "C:\\tools\\cargo-eval.exe"
    );
    assert_eq!(
        strip_verbatim_prefix("C:\\tools\\cargo-eval.exe"),
        "C:\\tools\\cargo-eval.exe"
    );
    assert_eq!(strip_verbatim_prefix(""), "");
    assert_eq!(strip_verbatim_prefix("\\\\?"), "\\\\?");
}

#[test]
fn pathext_membership_is_case_insensitive() {
    assert!(pathext_mentions_crs(&parts(&[".COM", ".CRS", ".EXE"])));
    assert!(pathext_mentions_crs(&parts(&[".crs"])));
    assert!(pathext_mentions_crs(&parts(&[".cRs"])));
    assert!(!pathext_mentions_crs(&parts(&[".COM", ".EXE"])));
    assert!(!pathext_mentions_crs(&parts(&[".CRSX", "CRS"])));
    assert!(!pathext_mentions_crs(&parts(&[])));
}

#[test]
fn pathext_joins_back_with_semicolons() {
    assert_eq!(join_pathext(&parts(&[".COM", ".EXE"])), ".COM;.EXE");
    assert_eq!(join_pathext(&parts(&[".COM"])), ".COM");
    assert_eq!(join_pathext(&parts(&[])), "");
    assert_eq!(join_pathext(&parts(&["", ".EXE"])), ";.EXE");
}

#[test]
fn pathext_without_crs_drops_every_spelling() {
    assert_eq!(
        pathext_without_crs(&parts(&[".COM", ".cRs", ".EXE", ".CRS"])),
        ".COM;.EXE"
    );
    assert_eq!(pathext_without_crs(&parts(&[".CRS"])), "");
    assert_eq!(
        pathext_without_crs(&parts(&[".COM", ".EXE"])),
        ".COM;.EXE"
    );
}

#[test]
fn install_plan_registers_the_class_keys() {
    let ops = install_plan(false, "D:\\bin\\cargo-eval.exe", &parts(&[".COM"]));
    assert_eq!(ops.len(), 3);
    assert_eq!(
        ops[0],
        RegOp::SetKeyDefault {
            key: ".crs".to_string(),
            value: "CargoScript.Crs".to_string(),
        }
    );
    assert_eq!(
        ops[1],
        RegOp::SetKeyDefault {
            key: "CargoScript.Crs".to_string(),
            value: "Cargo Script".to_string(),
        }
    );
    assert_eq!(
        ops[2],
        RegOp::SetKeyDefault {
            key: "CargoScript.Crs\\shell\\open\\command".to_string(),
            value: "\"D:\\bin\\cargo-eval.exe\" \"--\" \"%1\" %*".to_string(),
        }
    );
}

#[test]
fn install_plan_strips_the_verbatim_prefix_in_the_command() {
    let ops = install_plan(false, "\\\\?\\D:\\bin\\cargo-eval.exe", &parts(&[]));
    assert_eq!(
        ops[2],
        RegOp::SetKeyDefault {
            key: "CargoScript.Crs\\shell\\open\\command".to_string(),
            value: "\"D:\\bin\\cargo-eval.exe\" \"--\" \"%1\" %*".to_string(),
        }
    );
}

#[test]
fn install_plan_amends_pathext_only_when_needed() {
    let ops = install_plan(true, "D:\\e.exe", &parts(&[".COM", ".EXE"]));
    assert_eq!(ops.len(), 4);
    assert_eq!(
        ops[3],
        RegOp::SetPathExt { value: ".COM;.EXE;.CRS".to_string() }
    );

    // Already registered, in any case: nothing to amend.
    let ops = install_plan(true, "D:\\e.exe", &parts(&[".COM", ".crs"]));
    assert_eq!(ops.len(), 3);

    // Not requested: nothing to amend.
    let ops = install_plan(false, "D:\\e.exe", &parts(&[".COM"]));
    assert_eq!(ops.len(), 3);
}

#[test]
fn uninstall_plan_deletes_innermost_keys_first() {
    let ops = uninstall_plan(&parts(&[".COM", ".EXE"]));
    assert_eq!(ops.len(), 4);
    assert_eq!(
        ops[0],
        RegOp::DeleteKey { key: "CargoScript.Crs\\shell\\open\\command".to_string() }
    );
    assert_eq!(
        ops[1],
        RegOp::DeleteKey { key: "CargoScript.Crs\\shell\\open".to_string() }
    );
    assert_eq!(
        ops[2],
        RegOp::DeleteKey { key: "CargoScript.Crs\\shell".to_string() }
    );
    assert_eq!(ops[3], RegOp::DeleteKey { key: "CargoScript.Crs".to_string() });
}

#[test]
fn uninstall_plan_scrubs_pathext_when_registered() {
    let ops = uninstall_plan(&parts(&[".COM", ".CRS", ".EXE"]));
    assert_eq!(ops.len(), 5);
    assert_eq!(ops[4], RegOp::SetPathExt { value: ".COM;.EXE".to_string() });
}

#[test]
fn try_main_dispatches_both_requests() {
    let pathext = parts(&[".COM"]);
    let exe = "D:\\e.exe";
    assert_eq!(
        try_main(&Args::Install { amend_pathext: true }, exe, &pathext),
        install_plan(true, exe, &pathext)
    );
    assert_eq!(
        try_main(&Args::Uninstall, exe, &pathext),
        uninstall_plan(&pathext)
    );
}
