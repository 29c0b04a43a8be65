use mongoac::headers::{DocumentationStyleT, HeaderBracesT, HeaderLanguageT, HeaderStyleT, ItemKindT, configure, default_config, descends_into, generate_crate_header, generate_forward_header, include_guard, is_crate_source, rename_structs, skips_cargo_header, skips_forward_header};

#[test]
fn include_guards_follow_the_path() {
    assert_eq!(include_guard("path/to/crate", '/', false), "MONGOAC_PATH_TO_CRATE_H");
    assert_eq!(include_guard("path/to/crate", '/', true), "MONGOAC_PATH_TO_CRATE_FWD_H");
    assert_eq!(include_guard("client_options", '/', false), "MONGOAC_CLIENT_OPTIONS_H");
}

#[test]
fn skipped_sources() {
    for s in ["lib", "mod", "version"] {
        assert!(skips_cargo_header(s));
        assert!(generate_crate_header(s, s, '/').is_none());
    }
    assert!(!skips_cargo_header("client"));
    for s in ["bson", "cursor_type", "string"] {
        assert!(skips_forward_header(s));
    }
    assert!(!skips_forward_header("client"));
    assert!(!descends_into(Some("private")));
    assert!(descends_into(Some("public")));
    assert!(descends_into(None));
    assert!(is_crate_source(Some("rs")));
    assert!(!is_crate_source(Some("toml")));
    assert!(!is_crate_source(None));
}

#[test]
fn struct_renames_table() {
    let r = rename_structs();
    assert_eq!(r.len(), 45);
    assert!(r.contains(&("BsonViewT".to_string(), "mongoac_bson_view_t".to_string())));
    assert!(r.contains(&(
        "EstimatedDocumentCountOptionsT".to_string(),
        "mongoac_estimated_document_count_options_t".to_string()
    )));
    for (rust, c) in &r {
        let stem = &rust[..rust.len() - 1];
        let mut snake = String::new();
        for (i, ch) in stem.chars().enumerate() {
            if ch.is_ascii_uppercase() && i > 0 {
                snake.push('_');
            }
            snake.push(ch.to_ascii_lowercase());
        }
        assert_eq!(c, &format!("mongoac_{snake}_t"));
    }
}

#[test]
fn default_settings() {
    let c = default_config();
    assert_eq!(c.language, HeaderLanguageT::C);
    assert_eq!(c.style, HeaderStyleT::Type);
    assert_eq!(c.braces, HeaderBracesT::NextLine);
    assert_eq!(c.line_length, 120);
    assert_eq!(c.tab_width, 3);
    assert!(c.include_version && c.cpp_compat && c.no_includes && !c.documentation);
    assert_eq!(c.documentation_style, DocumentationStyleT::C99);
    assert_eq!(c.function_prefix.as_deref(), Some("MONGOAC_API"));
    assert_eq!(c.autogen_warning.as_deref(), Some("// Generated by src/libmongoac/cmake/generate-crate-headers/src/main.rs"));
    assert!(c.item_types.is_empty());
    assert!(c.sys_includes.is_empty());
    assert_eq!(c.rename.len(), 45);
}

#[test]
fn configure_appends_the_listed_includes() {
    let mut c = default_config();
    configure("bson", &mut c);
    assert_eq!(c.sys_includes, vec!["stdint.h".to_string()]);
    configure("client_session", &mut c);
    assert_eq!(c.sys_includes, vec!["stdint.h", "mongoac/error-fwd.h", "mongoac/future-fwd.h"]);
    configure("no_such_header", &mut c);
    assert_eq!(c.sys_includes.len(), 3);
}

#[test]
fn crate_header_plan() {
    let h = generate_crate_header("client_session", "client_session", '/').unwrap();
    let f = h.forward.as_ref().unwrap();
    assert_eq!(f.include_guard, "MONGOAC_CLIENT_SESSION_FWD_H");
    assert_eq!(f.config.item_types, vec![ItemKindT::OpaqueItems]);
    assert!(f.config.sys_includes.is_empty());
    assert_eq!(h.header.include_guard, "MONGOAC_CLIENT_SESSION_H");
    assert_eq!(
        h.header.config.sys_includes,
        vec![
            "mongoac/client_session-fwd.h",
            "mongoac/export.h",
            "mongoac/error-fwd.h",
            "mongoac/future-fwd.h"
        ]
    );
    assert_eq!(
        h.header.config.item_types,
        vec![
            ItemKindT::Functions,
            ItemKindT::Typedefs,
            ItemKindT::Constants,
            ItemKindT::Enums,
            ItemKindT::Structs,
            ItemKindT::Unions
        ]
    );
}

#[test]
fn headers_without_forward_declarations() {
    let h = generate_crate_header("bson", "bson", '/').unwrap();
    assert!(h.forward.is_none());
    assert_eq!(h.header.config.sys_includes, vec!["mongoac/export.h", "stdint.h"]);
    let fwd = generate_forward_header("server_api", '/');
    assert_eq!(fwd.include_guard, "MONGOAC_SERVER_API_FWD_H");
}

#[test]
fn header_files_are_named_after_the_source() {
    let h = generate_crate_header("client", "client", '/').unwrap();
    assert_eq!(h.header.path, "client.h");
    assert_eq!(h.forward.as_ref().unwrap().path, "client-fwd.h");
    assert_eq!(h.forward.as_ref().unwrap().include_guard, "MONGOAC_CLIENT_FWD_H");
    let b = generate_crate_header("bson", "bson", '/').unwrap();
    assert_eq!(b.header.path, "bson.h");
    let nested = generate_forward_header("a/b", '/');
    assert_eq!(nested.path, "a/b-fwd.h");
    assert_eq!(nested.include_guard, "MONGOAC_A_B_FWD_H");
}
