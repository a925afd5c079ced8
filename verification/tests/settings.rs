use deadlock_mod_manager::error::Error;
use deadlock_mod_manager::settings::{
    api_url_lock_error, default_api_url_string, get_api_url, ApiUrl, parse_deep_link, registry_status, registry_status_entries,
    set_api_url, set_language, RegistryQuery,
};

#[test]
fn api_url_round_trip() {
    assert_eq!(default_api_url_string(), "http://localhost:9000");
    let mut current = ApiUrl::new();
    assert_eq!(get_api_url(Some(&current)), "http://localhost:9000");
    assert_eq!(set_api_url(&mut current, "https://api.example.com".to_string()), Ok(()));
    assert_eq!(get_api_url(Some(&current)), "https://api.example.com");
    assert_eq!(
        set_api_url(&mut current, "ftp://api.example.com".to_string()),
        Err(Error::InvalidInput(
            "API URL must start with http:// or https://".to_string()
        ))
    );
    assert_eq!(get_api_url(Some(&current)), "https://api.example.com");
    assert!(set_api_url(&mut current, "localhost:9000".to_string()).is_err());
    assert!(set_api_url(&mut current, "".to_string()).is_err());
    assert_eq!(get_api_url(Some(&current)), "https://api.example.com");
    assert_eq!(set_api_url(&mut current, "http://127.0.0.1".to_string()), Ok(()));
    assert_eq!(get_api_url(Some(&current)), "http://127.0.0.1");
    assert_eq!(get_api_url(None), "http://localhost:9000");
}

#[test]
fn languages_offered() {
    for l in ["en", "de", "gsw", "zh-CN", "pt-BR", "ja"] {
        assert_eq!(set_language(l), Ok(()));
    }
    assert_eq!(
        set_language("xx"),
        Err(Error::InvalidInput("Unsupported language: xx".to_string()))
    );
    assert_eq!(
        set_language("EN"),
        Err(Error::InvalidInput("Unsupported language: EN".to_string()))
    );
}

#[test]
fn deep_links_and_their_errors() {
    let schemes = vec!["deadlock-mod-manager".to_string(), "deadlock-mods".to_string()];
    assert_eq!(
        parse_deep_link(None, &schemes, None).err(),
        Some(Error::InvalidInput(
            "Invalid deep link format. Expected schemes: deadlock-mod-manager, deadlock-mods"
                .to_string()
        ))
    );
    assert_eq!(
        parse_deep_link(Some("a,b".to_string()), &schemes, None).err(),
        Some(Error::InvalidInput("Invalid mod installation deep link format. Must contain 3 comma-separated parts: download_url,mod_type,mod_id".to_string()))
    );
    let d = parse_deep_link(
        Some("u,t,i".to_string()),
        &schemes,
        Some(("https://x/y.zip".to_string(), "mod".to_string(), "42".to_string())),
    )
    .unwrap();
    assert_eq!(d.download_url, "https://x/y.zip");
    assert_eq!(d.mod_type, "mod");
    assert_eq!(d.mod_id, "42");
}

#[test]
fn registry_statuses() {
    assert_eq!(registry_status(&RegistryQuery::Registered), "REGISTERED");
    assert_eq!(registry_status(&RegistryQuery::NotFound), "NOT_FOUND");
    assert_eq!(
        registry_status(&RegistryQuery::Failed("no reg.exe".to_string())),
        "ERROR: no reg.exe"
    );
    assert_eq!(registry_status(&RegistryQuery::NotWindows), "N/A (non-Windows)");
    let schemes = vec!["a".to_string(), "b".to_string(), "a".to_string()];
    let answers = vec![
        RegistryQuery::NotFound,
        RegistryQuery::Registered,
        RegistryQuery::Registered,
    ];
    let mut entries = registry_status_entries(&schemes, &answers);
    entries.sort();
    assert_eq!(
        entries,
        vec![
            ("a".to_string(), "REGISTERED".to_string()),
            ("b".to_string(), "REGISTERED".to_string())
        ]
    );
}

#[test]
fn lost_api_url_lock_is_reported() {
    assert_eq!(api_url_lock_error(), Error::InvalidInput("Failed to acquire API URL lock".to_string()));
}
