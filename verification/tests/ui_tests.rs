use open_eyes::dashboard::{JsonRow, JsonScalar};
use open_eyes::ui::{
    bubble_class, card_description, card_tags, chart_drawn, chart_element_id, chat_panel_class,
    chart_script, chat_suggestions, german, home_suggestions, is_nav_active, label,
    language_button_class, nav_class, nav_items, resource_status_line, resources_label,
    sidebar_class, table_preview, total_pages, CatalogPager, ChatPanelState, Label, Route,
    ShellState, CHART_SCRIPT_HEAD,
};

#[test]
fn language_is_german_only_for_de() {
    assert!(german("de"));
    assert!(!german("en"));
    assert!(!german("DE"));
    assert_eq!(label(Label::ChatTitle, "de"), "Daten-Assistent");
    assert_eq!(label(Label::ChatTitle, "en"), "Data Assistant");
    assert_eq!(label(Label::ChatTitle, "fr"), "Data Assistant");
    assert_eq!(label(Label::StatDatasets, "de"), "Datensätze");
    assert_eq!(label(Label::CatalogPrevious, "de"), "Zurück");
    assert_eq!(label(Label::CatalogNext, "en"), "Next");
}

#[test]
fn suggestions_follow_language() {
    let de = chat_suggestions("de");
    assert_eq!(de.len(), 4);
    assert_eq!(de[0], "Welche Kategorien haben die meisten Datensätze?");
    let en = chat_suggestions("en");
    assert_eq!(en[3], "What data formats are most common?");
    let home = home_suggestions("en");
    assert_eq!(home[1], ("Show the latest publications", "See what was just published"));
}

#[test]
fn chat_panel_sends_one_question_at_a_time() {
    let mut panel = ChatPanelState::new();
    assert!(panel.shows_suggestions());
    panel.set_input("   ".to_string());
    assert_eq!(panel.submit_input(), None);
    assert!(panel.messages.is_empty());

    panel.set_input("How many datasets?".to_string());
    assert_eq!(panel.submit_input(), Some("How many datasets?".to_string()));
    assert!(panel.loading);
    assert_eq!(panel.input, "");
    assert_eq!(panel.messages.len(), 1);
    assert_eq!(panel.messages[0].role, "user");
    assert!(!panel.shows_suggestions());

    panel.set_input("Another".to_string());
    assert_eq!(panel.submit_input(), None);
    assert_eq!(panel.prefill("Prefilled".to_string()), None);
    assert_eq!(panel.messages.len(), 1);

    panel.receive(Ok(("42 datasets".to_string(), "SELECT 1".to_string(), "{}".to_string())));
    assert!(!panel.loading);
    assert_eq!(panel.messages.len(), 2);
    assert_eq!(panel.messages[1].role, "assistant");
    assert_eq!(panel.messages[1].content, "42 datasets");
    assert_eq!(panel.messages[1].sql, "SELECT 1");

    assert_eq!(panel.submit_input(), Some("Another".to_string()));
    panel.receive(Err("timeout".to_string()));
    assert!(panel.messages[3].content.ends_with("Technische Details: timeout"));
    assert_eq!(panel.messages[3].sql, "");
}

#[test]
fn chat_panel_prefill_and_suggestion() {
    let mut panel = ChatPanelState::new();
    assert_eq!(panel.prefill(String::new()), None);
    assert_eq!(panel.prefill("Q".to_string()), Some("Q".to_string()));
    assert!(panel.loading);
    let mut other = ChatPanelState::new();
    assert_eq!(other.ask_suggestion("S".to_string()), "S");
    assert!(other.loading);
    assert_eq!(other.messages[0].content, "S");
}

#[test]
fn catalog_pager_moves_between_pages() {
    assert_eq!(total_pages(0), 0);
    assert_eq!(total_pages(1), 1);
    assert_eq!(total_pages(20), 1);
    assert_eq!(total_pages(21), 2);
    assert_eq!(total_pages(u64::MAX), u64::MAX / 20 + 1);

    let mut pager = CatalogPager::new();
    assert_eq!(pager.search_window(), (0, 20));
    assert!(!pager.has_previous());
    assert!(pager.has_next(45));
    pager.next(45);
    pager.next(45);
    assert_eq!(pager.page, 2);
    assert!(!pager.has_next(45));
    pager.next(45);
    assert_eq!(pager.page, 2);
    assert_eq!(pager.search_window(), (40, 20));
    assert_eq!(pager.page_label(45, "de"), "Seite 3 von 3");
    assert_eq!(pager.page_label(45, "en"), "Page 3 of 3");
    pager.previous();
    assert_eq!(pager.page, 1);
    pager.set_query("wasser".to_string());
    assert_eq!(pager.page, 0);
    assert_eq!(pager.query, "wasser");
    pager.previous();
    assert_eq!(pager.page, 0);
    assert_eq!(pager.page_label(0, "en"), "Page 1 of 0");
}

#[test]
fn navigation_highlights_one_entry() {
    let detail = Route::DatasetDetailPage { dataset_id: "abc".to_string() };
    let items = nav_items();
    assert_eq!(items.len(), 4);
    let active: Vec<bool> = items.iter().map(|(_, r)| is_nav_active(&detail, r)).collect();
    assert_eq!(active, vec![false, true, false, false]);
    assert_eq!(nav_class(&Route::SettingsPage, &Route::SettingsPage), "nav-item active");
    assert_eq!(nav_class(&Route::HomePage, &Route::SettingsPage), "nav-item");
    assert!(is_nav_active(
        &Route::DatasetDetailPage { dataset_id: "a".to_string() },
        &Route::DatasetDetailPage { dataset_id: "a".to_string() }
    ));
    assert!(!is_nav_active(
        &Route::DatasetDetailPage { dataset_id: "a".to_string() },
        &Route::DatasetDetailPage { dataset_id: "b".to_string() }
    ));
    assert_eq!(label(items[0].0, "de"), "Startseite");
    assert_eq!(label(items[2].0, "en"), "Analytics");
    assert_eq!(sidebar_class(true), "sidebar collapsed");
    assert_eq!(language_button_class("de", "de"), "lang-btn active");
    assert_eq!(language_button_class("de", "en"), "lang-btn");
}

#[test]
fn shell_starts_german_with_chat_open() {
    let mut shell = ShellState::new();
    assert!(shell.chat_visible);
    assert_eq!(shell.language, "de");
    shell.hand_over("Q".to_string());
    assert_eq!(shell.chat_prefill, "Q");
    shell.handed_over();
    assert_eq!(shell.chat_prefill, "");
    shell.set_chat_visible(false);
    assert_eq!(chat_panel_class(shell.chat_visible), "chat-panel hidden");
}

#[test]
fn bubbles_and_charts() {
    assert_eq!(bubble_class("user"), "chat-message user");
    assert_eq!(bubble_class("assistant"), "chat-message assistant");
    assert!(!chart_drawn(""));
    assert!(!chart_drawn("{}"));
    assert!(chart_drawn("{\"a\":1}"));
    assert_eq!(chart_element_id(7), "echart-7");
    let script = chart_script("echart-7", "{}");
    assert!(script.starts_with(CHART_SCRIPT_HEAD));
    assert!(script.contains("document.getElementById('echart-7');"));
    assert!(script.contains("chart.setOption({});"));
}

#[test]
fn table_preview_shows_cells() {
    let rows = vec![
        JsonRow {
            fields: vec![
                ("name".to_string(), JsonScalar::Text("Berlin".to_string())),
                ("n".to_string(), JsonScalar::PosInt(3)),
                ("x".to_string(), JsonScalar::Null),
            ],
        },
        JsonRow {
            fields: vec![
                ("n".to_string(), JsonScalar::NegInt(-2)),
                ("name".to_string(), JsonScalar::Bool(true)),
                ("extra".to_string(), JsonScalar::Float("1.5".to_string())),
            ],
        },
    ];
    let (columns, cells) = table_preview(&rows);
    assert_eq!(columns, vec!["name", "n", "x"]);
    assert_eq!(cells[0], vec!["Berlin", "3", "\u{2014}"]);
    assert_eq!(cells[1], vec!["true", "-2", "\u{2014}"]);
    let (no_columns, no_cells) = table_preview(&Vec::new());
    assert!(no_columns.is_empty());
    assert!(no_cells.is_empty());
}

#[test]
fn dataset_card_texts() {
    let short = "kurz";
    assert_eq!(card_description(short), "kurz");
    let long = "a".repeat(200);
    let cut = card_description(&long);
    assert_eq!(cut.len(), 153);
    assert!(cut.ends_with("..."));
    let exact = "b".repeat(150);
    assert_eq!(card_description(&exact), exact);
    let tags: Vec<String> = (0..7).map(|i| format!("t{i}")).collect();
    assert_eq!(card_tags(&tags), vec!["t0", "t1", "t2", "t3", "t4"]);
    assert_eq!(card_tags(&tags[..2].to_vec()), vec!["t0", "t1"]);
    assert_eq!(resources_label(3), "3 resources");
    assert_eq!(resource_status_line("loaded", 12), "loaded \u{2022} 12 rows");
}

#[test]
fn dataset_card_cuts_on_a_character_boundary() {
    let text = format!("{}b", "ä".repeat(75));
    assert_eq!(card_description(&text), format!("{}...", "ä".repeat(75)));
}

#[test]
fn stat_card_colour() {
    assert_eq!(open_eyes::ui::stat_value_style(""), "");
    assert_eq!(open_eyes::ui::stat_value_style("var(--success)"), "color: var(--success)");
}
