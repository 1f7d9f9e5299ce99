use open_eyes::crawl::{
    check_body_size, check_declared_size, check_download_status, dataset_statement,
    is_format_allowed, load_format, load_target, normalize_format, package_statements, page_url,
    CrawlState, LoadFormat, PageReply, PendingResource, CRAWL_PAGE_SIZE,
};
use open_eyes::errors::OpenEyesError;
use open_eyes::models::{CkanGroup, CkanOrganization, CkanPackage, CkanResource, CkanTag};

fn package() -> CkanPackage {
    CkanPackage {
        id: "pkg-1".to_string(),
        title: Some("Test's Package".to_string()),
        notes: None,
        organization: Some(CkanOrganization { name: "org1".to_string(), title: None }),
        groups: Some(vec![CkanGroup { name: "health".to_string(), title: None }]),
        tags: Some(vec![
            CkanTag { name: "covid".to_string() },
            CkanTag { name: "data".to_string() },
        ]),
        license_title: Some("CC-BY".to_string()),
        url: None,
        metadata_created: Some("2024-01-01T00:00:00".to_string()),
        metadata_modified: None,
        resources: Some(vec![
            CkanResource {
                id: "r1".to_string(),
                name: Some("data.csv".to_string()),
                format: Some("text/csv".to_string()),
                url: "https://example.com/data.csv".to_string(),
            },
            CkanResource {
                id: "r2".to_string(),
                name: None,
                format: Some("PDF".to_string()),
                url: "https://example.com/x.pdf".to_string(),
            },
        ]),
    }
}

#[test]
fn normalizes_formats() {
    assert_eq!(normalize_format("text/csv"), "CSV");
    assert_eq!(normalize_format("json"), "JSON");
    assert_eq!(normalize_format("a/b/"), "");
    assert_eq!(normalize_format(""), "");
    let allowed = vec!["csv".to_string(), "JSON".to_string()];
    assert!(is_format_allowed("CSV", &allowed));
    assert!(is_format_allowed("JSON", &allowed));
    assert!(!is_format_allowed("PDF", &allowed));
    assert!(!is_format_allowed("csv", &allowed));
}

#[test]
fn writes_package_statements() {
    let pkg = package();
    let expected = "INSERT OR REPLACE INTO oe_datasets (id, title, title_de, description, description_de, organization, categories, tags, license, ckan_url, created_at, modified_at)\n        VALUES ('pkg-1', 'Test''s Package', 'Test''s Package', '', '', 'org1', '[\"health\"]', '[\"covid\",\"data\"]', 'CC-BY', '',\n                CASE WHEN '2024-01-01T00:00:00' = '' THEN NULL ELSE '2024-01-01T00:00:00' END,\n                CASE WHEN '' = '' THEN NULL ELSE '' END)";
    assert_eq!(dataset_statement(&pkg), expected);
    let st = package_statements(&pkg, &vec!["CSV".to_string(), "JSON".to_string()]);
    assert_eq!(st.dataset_sql, expected);
    assert_eq!(
        st.resource_sqls,
        vec!["INSERT OR REPLACE INTO oe_resources (id, dataset_id, name, format, url, download_status)\n                VALUES ('r1', 'pkg-1', 'data.csv', 'CSV', 'https://example.com/data.csv', 'pending')".to_string()]
    );
    let bare = CkanPackage {
        id: "p".to_string(),
        title: None,
        notes: None,
        organization: Some(CkanOrganization {
            name: "n".to_string(),
            title: Some("Statistisches Bundesamt".to_string()),
        }),
        groups: None,
        tags: None,
        license_title: None,
        url: None,
        metadata_created: None,
        metadata_modified: None,
        resources: None,
    };
    let st = package_statements(&bare, &vec!["CSV".to_string()]);
    assert!(st.dataset_sql.contains("'Untitled', 'Untitled'"));
    assert!(st.dataset_sql.contains("'Statistisches Bundesamt', '[]', '[]'"));
    assert!(st.resource_sqls.is_empty());
}

#[test]
fn crawls_page_by_page() {
    let mut st = CrawlState::start(250, 10000);
    assert_eq!(st.limit, 250);
    assert_eq!(st.next_page(), Some((100, 0)));
    st.record_page(PageReply::Received { success: true, results: 100, stored: 99 });
    assert_eq!(st.next_page(), Some((100, 100)));
    st.record_page(PageReply::Received { success: true, results: 100, stored: 100 });
    assert_eq!(st.next_page(), Some((50, 200)));
    st.record_page(PageReply::Received { success: true, results: 50, stored: 50 });
    assert!(st.finished);
    assert_eq!(st.next_page(), None);
    assert_eq!(st.total_inserted, 249);
    assert_eq!(st.offset, 250);

    let mut st = CrawlState::start(10, 5);
    assert_eq!(st.next_page(), Some((5, 0)));
    st.record_page(PageReply::Refused);
    assert_eq!(st.next_page(), None);
    assert_eq!(st.total_inserted, 0);

    let mut st = CrawlState::start(1000, 1000);
    st.record_page(PageReply::Received { success: false, results: 100, stored: 0 });
    assert!(st.finished);
    assert_eq!(st.offset, 0);
    assert_eq!(CRAWL_PAGE_SIZE, 100);
    assert_eq!(
        page_url("https://ckan.govdata.de/api/3/action", 100, 200),
        "https://ckan.govdata.de/api/3/action/package_search?rows=100&start=200"
    );
}

#[test]
fn checks_downloads() {
    assert!(check_declared_size(None, 1).is_ok());
    assert!(check_declared_size(Some(1048576), 1).is_ok());
    match check_declared_size(Some(5 * 1048576 + 7), 2) {
        Err(OpenEyesError::Ingestion(m)) => assert_eq!(m, "Resource too large: 5 MB (max 2 MB)"),
        other => panic!("unexpected {other:?}"),
    }
    match check_download_status(false, "404 Not Found") {
        Err(OpenEyesError::Ingestion(m)) => assert_eq!(m, "Download failed: HTTP 404 Not Found"),
        other => panic!("unexpected {other:?}"),
    }
    assert!(check_download_status(true, "200 OK").is_ok());
    assert!(check_body_size(10, 0).is_err());
    assert!(check_body_size(0, 0).is_ok());
    assert_eq!(load_format("text/csv").unwrap(), LoadFormat::Csv);
    assert_eq!(load_format("application/json").unwrap(), LoadFormat::Json);
    match load_format("XLSX") {
        Err(OpenEyesError::Ingestion(m)) => assert_eq!(m, "Unsupported format: XLSX"),
        other => panic!("unexpected {other:?}"),
    }
}

#[test]
fn plans_pending_loads() {
    let r = PendingResource {
        id: "r000001xyz".to_string(),
        dataset_id: "ds00001".to_string(),
        format: "CSV".to_string(),
        url: "https://example.com".to_string(),
    };
    assert_eq!(load_target(&r), Some("data_ds00001_r000001x".to_string()));
    let skip = PendingResource {
        id: "r".to_string(),
        dataset_id: "d".to_string(),
        format: "CSV".to_string(),
        url: String::new(),
    };
    assert_eq!(load_target(&skip), None);
}
