use yadaw::backend_clap::parse_uri;
use yadaw::plugin_facade::{
    check_clap_path, check_lv2_uri, check_vst3_path, split_clap_uri, validate_plugin_uri,
    BackendKind, UriError,
};

#[test]
fn lv2_uris_are_looked_up_not_opened() {
    let uri = "http://lv2plug.in/plugins/eg-amp";
    assert_eq!(validate_plugin_uri(BackendKind::Lv2, uri), Ok(uri.to_string()));
    assert_eq!(check_lv2_uri("urn:x"), Ok("urn:x".to_string()));
    assert_eq!(validate_plugin_uri(BackendKind::Lv2, ""), Err(UriError::EmptyLv2Uri));
    assert_eq!(check_lv2_uri("x-lv2+a.b:amp"), Ok("x-lv2+a.b:amp".to_string()));
    for no_scheme in ["eg-amp", ":amp", "1x:amp", "e g:amp", "amp.lv2"] {
        assert_eq!(
            validate_plugin_uri(BackendKind::Lv2, no_scheme),
            Err(UriError::Lv2WithoutScheme),
            "{no_scheme}"
        );
    }
    for path_like in ["/usr/lib/lv2/amp.lv2", "file:///usr/lib/amp.so", "urn:a#b"] {
        assert_eq!(
            validate_plugin_uri(BackendKind::Lv2, path_like),
            Err(UriError::Lv2LooksLikePath)
        );
    }
}

#[test]
fn clap_uris_name_absolute_libraries() {
    assert_eq!(
        validate_plugin_uri(BackendKind::Clap, "file:///usr/lib/clap/surge.clap#org.surge"),
        Ok("file:///usr/lib/clap/surge.clap#org.surge".to_string())
    );
    assert_eq!(
        validate_plugin_uri(BackendKind::Clap, "/opt/x.so#id#more"),
        Ok("file:///opt/x.so#id#more".to_string())
    );
    assert_eq!(
        validate_plugin_uri(BackendKind::Clap, "file:///usr/lib/x.so"),
        Err(UriError::ClapMissingId)
    );
    assert_eq!(
        validate_plugin_uri(BackendKind::Clap, "file:///usr/lib/x.clap#"),
        Err(UriError::ClapEmptyId)
    );
    assert_eq!(
        validate_plugin_uri(BackendKind::Clap, "file://lib/x.clap#id"),
        Err(UriError::RelativeClapPath)
    );
    assert_eq!(
        validate_plugin_uri(BackendKind::Clap, "/usr/lib/x.txt#id"),
        Err(UriError::ClapBadExtension)
    );
    assert_eq!(
        validate_plugin_uri(BackendKind::Clap, "/usr/lib/x#id"),
        Err(UriError::ClapBadExtension)
    );
}

#[test]
fn vst3_paths_need_the_bundle_extension() {
    assert_eq!(
        validate_plugin_uri(BackendKind::Vst3, "/usr/lib/vst3/Foo.VST3"),
        Ok("/usr/lib/vst3/Foo.VST3".to_string())
    );
    assert_eq!(
        validate_plugin_uri(BackendKind::Vst3, "Foo.vst3"),
        Err(UriError::RelativeVst3Path)
    );
    assert_eq!(
        validate_plugin_uri(BackendKind::Vst3, "/usr/lib/vst3/Foo.vst"),
        Err(UriError::Vst3BadExtension)
    );
}

#[test]
fn path_verdicts() {
    assert_eq!(check_clap_path(false, Some("clap")), Err(UriError::RelativeClapPath));
    assert_eq!(check_clap_path(true, Some("dylib")), Ok(()));
    assert_eq!(check_clap_path(true, Some("dll")), Ok(()));
    assert_eq!(check_clap_path(true, Some("CLAP")), Err(UriError::ClapBadExtension));
    assert_eq!(check_clap_path(true, None), Err(UriError::ClapBadExtension));
    assert_eq!(check_vst3_path(true, Some("VsT3")), Ok(()));
    assert_eq!(check_vst3_path(true, Some("vst")), Err(UriError::Vst3BadExtension));
    assert_eq!(check_vst3_path(false, Some("vst3")), Err(UriError::RelativeVst3Path));
    assert_eq!(check_vst3_path(true, None), Err(UriError::Vst3BadExtension));
}

#[test]
fn clap_uris_split_at_the_first_hash() {
    assert_eq!(
        split_clap_uri("file:///a/b.so#x#y"),
        Some(("/a/b.so".to_string(), "x#y".to_string()))
    );
    assert_eq!(split_clap_uri("c.so#é"), Some(("c.so".to_string(), "é".to_string())));
    assert_eq!(split_clap_uri("file:///a/b.so"), None);
    assert_eq!(
        parse_uri("file:///usr/lib/x.clap#org.x"),
        Ok(("/usr/lib/x.clap".to_string(), "org.x".to_string()))
    );
    assert_eq!(
        parse_uri("nothing"),
        Err("CLAP URI must be file:///.../lib.so#plugin_id, got: nothing".to_string())
    );
}

#[test]
fn refusal_messages() {
    assert_eq!(UriError::EmptyLv2Uri.message(""), "Empty LV2 URI");
    assert_eq!(
        UriError::Lv2WithoutScheme.message("amp"),
        "Refusing LV2 URI without a scheme: amp"
    );
    assert_eq!(
        UriError::ClapMissingId.message("a.so"),
        "CLAP URI must be file:///.../lib#plugin_id, got: a.so"
    );
    assert_eq!(
        UriError::Vst3BadExtension.message("/x.vst"),
        "Refusing VST3 path with bad extension: /x.vst"
    );
    assert_eq!(
        UriError::Lv2LooksLikePath.message("/p"),
        "Refusing LV2 URI that looks like a path: /p"
    );
}

#[test]
fn paths_without_a_root_are_relative() {
    assert_eq!(
        validate_plugin_uri(BackendKind::Clap, "file://plugins/lib.clap#id"),
        Err(UriError::RelativeClapPath)
    );
    assert_eq!(validate_plugin_uri(BackendKind::Clap, "lib.so#id"), Err(UriError::RelativeClapPath));
    assert_eq!(
        validate_plugin_uri(BackendKind::Vst3, "plugins/Synth.vst3"),
        Err(UriError::RelativeVst3Path)
    );
}
