//! What the dashboard's screens decide, apart from drawing them: which
//! language's texts they show, how the chat panel and the catalog's pages move
//! from one state to the next, which navigation entry is active, and how a
//! previewed table and a dataset card read.
use vstd::prelude::*;
use vstd::string::*;

use vstd::utf8::*;

use crate::dashboard::{
    assistant_entry, field_value, find_field, value_text, value_text_of, JsonRow, JsonScalar,
    MessageEntry, APOLOGY,
};
use crate::text::{
    decimal, decimal_int, i64_to_decimal, str_equal, trim_str, trim_ws, u64_to_decimal, TrimSet,
};

verus! {

// ---------------------------------------------------------------------------
// Language
// ---------------------------------------------------------------------------

/// Whether the interface language is German (`"de"`); every other language
/// is shown in English.
pub open spec fn is_german(language: Seq<char>) -> bool {
    language == "de"@
}

/// Executable form of `is_german`.
pub fn german(language: &str) -> (b: bool)
    ensures
        b == is_german(language@),
{
    str_equal(language, "de")
}

// ---------------------------------------------------------------------------
// Texts
// ---------------------------------------------------------------------------

/// The fixed texts of the screens.
#[derive(Debug, Clone, Copy, PartialEq, Eq, Structural)]
pub enum Label {
    ChatTitle,
    ChatPlaceholder,
    ChatWelcomeHeading,
    ChatWelcomeText,
    HomeHeading,
    HomeIntro,
    StatDatasets,
    StatTables,
    StatDataPoints,
    StatFiles,
    HomeOverviewLoading,
    HomeTopicsHeading,
    HomeTopicsError,
    HomeRecentHeading,
    HomeRecentError,
    Loading,
    CatalogTitle,
    CatalogDescription,
    CatalogSearchPlaceholder,
    CatalogEmptyHeading,
    CatalogEmptyText,
    CatalogPrevious,
    CatalogNext,
    CatalogError,
    CatalogLoading,
    AnalyticsTitle,
    AnalyticsDescription,
    AnalyticsEmptyHeading,
    AnalyticsEmptyText,
    AnalyticsError,
    AnalyticsLoading,
    SettingsTitle,
    SettingsDescription,
    SettingsStatusHeading,
    StatLoaded,
    StatProcessing,
    StatErrors,
    SettingsStatusError,
    SettingsAboutHeading,
    SettingsAboutText,
    NavHome,
    NavCatalog,
    NavAnalytics,
    NavSettings,
}

/// A text in German and in English.
pub open spec fn label_pair(l: Label) -> (Seq<char>, Seq<char>) {
    match l {
        Label::ChatTitle => ("Daten-Assistent"@, "Data Assistant"@),
        Label::ChatPlaceholder => ("Stellen Sie eine Frage zu den Daten..."@, "Ask a question about the data..."@),
        Label::ChatWelcomeHeading => ("Willkommen bei Open Eyes"@, "Welcome to Open Eyes"@),
        Label::ChatWelcomeText => ("Stellen Sie Fragen zu deutschen Regierungsdaten in natürlicher Sprache. Ich suche die passenden Datensätze, analysiere sie und erstelle Visualisierungen."@, "Ask questions about German government data in plain language. I'll find relevant datasets, analyze them, and create visualizations."@),
        Label::HomeHeading => ("Offene Daten, verständlich erklärt"@, "Open data, clearly explained"@),
        Label::HomeIntro => ("Stellen Sie Fragen zu öffentlichen Regierungsdaten in einfacher Sprache. Open Eyes findet die passenden Datensätze und erstellt Visualisierungen für Sie."@, "Ask questions about public government data in plain language. Open Eyes finds the right datasets and creates visualizations for you."@),
        Label::StatDatasets => ("Datensätze"@, "Data Collections"@),
        Label::StatTables => ("Analysierbare Tabellen"@, "Queryable Tables"@),
        Label::StatDataPoints => ("Datenpunkte"@, "Data Points"@),
        Label::StatFiles => ("Dateien"@, "Files"@),
        Label::HomeOverviewLoading => ("Lade Übersicht..."@, "Loading overview..."@),
        Label::HomeTopicsHeading => ("Beliebte Themenbereiche"@, "Popular Topics"@),
        Label::HomeTopicsError => ("Themenbereiche konnten nicht geladen werden"@, "Could not load topics"@),
        Label::HomeRecentHeading => ("Kürzlich hinzugefügt"@, "Recently Added"@),
        Label::HomeRecentError => ("Neueste Datensätze konnten nicht geladen werden"@, "Could not load recent datasets"@),
        Label::Loading => ("Wird geladen..."@, "Loading..."@),
        Label::CatalogTitle => ("Datenkatalog"@, "Data Catalog"@),
        Label::CatalogDescription => ("Durchsuchen Sie öffentliche Datensätze der deutschen Regierung"@, "Browse public datasets from the German government"@),
        Label::CatalogSearchPlaceholder => ("Datensätze durchsuchen..."@, "Search datasets..."@),
        Label::CatalogEmptyHeading => ("Keine Ergebnisse gefunden"@, "No results found"@),
        Label::CatalogEmptyText => ("Versuchen Sie andere Suchbegriffe oder stöbern Sie ohne Filter."@, "Try different search terms or browse without a filter."@),
        Label::CatalogPrevious => ("Zurück"@, "Previous"@),
        Label::CatalogNext => ("Weiter"@, "Next"@),
        Label::CatalogError => ("Fehler beim Laden der Daten. Bitte versuchen Sie es erneut."@, "Error loading data. Please try again."@),
        Label::CatalogLoading => ("Lade Katalog..."@, "Loading catalog..."@),
        Label::AnalyticsTitle => ("Auswertungen"@, "Analytics"@),
        Label::AnalyticsDescription => ("Gespeicherte Visualisierungen aus Ihren Fragen"@, "Saved visualizations from your questions"@),
        Label::AnalyticsEmptyHeading => ("Noch keine Auswertungen"@, "No visualizations yet"@),
        Label::AnalyticsEmptyText => ("Stellen Sie Fragen im Chat, um automatisch Diagramme und Visualisierungen zu erstellen."@, "Ask questions in the chat to automatically create charts and visualizations."@),
        Label::AnalyticsError => ("Fehler beim Laden der Auswertungen."@, "Error loading analytics."@),
        Label::AnalyticsLoading => ("Lade Auswertungen..."@, "Loading analytics..."@),
        Label::SettingsTitle => ("Einstellungen"@, "Settings"@),
        Label::SettingsDescription => ("Datenstand und Systemstatus"@, "Data status and system information"@),
        Label::SettingsStatusHeading => ("Datenstand"@, "Data Status"@),
        Label::StatLoaded => ("Geladen"@, "Loaded"@),
        Label::StatProcessing => ("In Bearbeitung"@, "Processing"@),
        Label::StatErrors => ("Fehler"@, "Errors"@),
        Label::SettingsStatusError => ("Fehler beim Laden des Status."@, "Error loading status."@),
        Label::SettingsAboutHeading => ("Über Open Eyes"@, "About Open Eyes"@),
        Label::SettingsAboutText => ("Open Eyes macht öffentliche Regierungsdaten von GovData.de für alle zugänglich. Stellen Sie einfach eine Frage im Chat und erhalten Sie Antworten mit automatischen Visualisierungen — ganz ohne technische Vorkenntnisse."@, "Open Eyes makes public government data from GovData.de accessible to everyone. Simply ask a question in the chat and receive answers with automatic visualizations — no technical knowledge required."@),
        Label::NavHome => ("Startseite"@, "Home"@),
        Label::NavCatalog => ("Datenkatalog"@, "Catalog"@),
        Label::NavAnalytics => ("Auswertungen"@, "Analytics"@),
        Label::NavSettings => ("Einstellungen"@, "Settings"@),
    }
}

/// A text in the interface language.
pub open spec fn label_text(l: Label, language: Seq<char>) -> Seq<char> {
    if is_german(language) {
        label_pair(l).0
    } else {
        label_pair(l).1
    }
}

fn label_strs(l: Label) -> (r: (&'static str, &'static str))
    ensures
        r.0@ == label_pair(l).0,
        r.1@ == label_pair(l).1,
{
    match l {
        Label::ChatTitle => ("Daten-Assistent", "Data Assistant"),
        Label::ChatPlaceholder => ("Stellen Sie eine Frage zu den Daten...", "Ask a question about the data..."),
        Label::ChatWelcomeHeading => ("Willkommen bei Open Eyes", "Welcome to Open Eyes"),
        Label::ChatWelcomeText => ("Stellen Sie Fragen zu deutschen Regierungsdaten in natürlicher Sprache. Ich suche die passenden Datensätze, analysiere sie und erstelle Visualisierungen.", "Ask questions about German government data in plain language. I'll find relevant datasets, analyze them, and create visualizations."),
        Label::HomeHeading => ("Offene Daten, verständlich erklärt", "Open data, clearly explained"),
        Label::HomeIntro => ("Stellen Sie Fragen zu öffentlichen Regierungsdaten in einfacher Sprache. Open Eyes findet die passenden Datensätze und erstellt Visualisierungen für Sie.", "Ask questions about public government data in plain language. Open Eyes finds the right datasets and creates visualizations for you."),
        Label::StatDatasets => ("Datensätze", "Data Collections"),
        Label::StatTables => ("Analysierbare Tabellen", "Queryable Tables"),
        Label::StatDataPoints => ("Datenpunkte", "Data Points"),
        Label::StatFiles => ("Dateien", "Files"),
        Label::HomeOverviewLoading => ("Lade Übersicht...", "Loading overview..."),
        Label::HomeTopicsHeading => ("Beliebte Themenbereiche", "Popular Topics"),
        Label::HomeTopicsError => ("Themenbereiche konnten nicht geladen werden", "Could not load topics"),
        Label::HomeRecentHeading => ("Kürzlich hinzugefügt", "Recently Added"),
        Label::HomeRecentError => ("Neueste Datensätze konnten nicht geladen werden", "Could not load recent datasets"),
        Label::Loading => ("Wird geladen...", "Loading..."),
        Label::CatalogTitle => ("Datenkatalog", "Data Catalog"),
        Label::CatalogDescription => ("Durchsuchen Sie öffentliche Datensätze der deutschen Regierung", "Browse public datasets from the German government"),
        Label::CatalogSearchPlaceholder => ("Datensätze durchsuchen...", "Search datasets..."),
        Label::CatalogEmptyHeading => ("Keine Ergebnisse gefunden", "No results found"),
        Label::CatalogEmptyText => ("Versuchen Sie andere Suchbegriffe oder stöbern Sie ohne Filter.", "Try different search terms or browse without a filter."),
        Label::CatalogPrevious => ("Zurück", "Previous"),
        Label::CatalogNext => ("Weiter", "Next"),
        Label::CatalogError => ("Fehler beim Laden der Daten. Bitte versuchen Sie es erneut.", "Error loading data. Please try again."),
        Label::CatalogLoading => ("Lade Katalog...", "Loading catalog..."),
        Label::AnalyticsTitle => ("Auswertungen", "Analytics"),
        Label::AnalyticsDescription => ("Gespeicherte Visualisierungen aus Ihren Fragen", "Saved visualizations from your questions"),
        Label::AnalyticsEmptyHeading => ("Noch keine Auswertungen", "No visualizations yet"),
        Label::AnalyticsEmptyText => ("Stellen Sie Fragen im Chat, um automatisch Diagramme und Visualisierungen zu erstellen.", "Ask questions in the chat to automatically create charts and visualizations."),
        Label::AnalyticsError => ("Fehler beim Laden der Auswertungen.", "Error loading analytics."),
        Label::AnalyticsLoading => ("Lade Auswertungen...", "Loading analytics..."),
        Label::SettingsTitle => ("Einstellungen", "Settings"),
        Label::SettingsDescription => ("Datenstand und Systemstatus", "Data status and system information"),
        Label::SettingsStatusHeading => ("Datenstand", "Data Status"),
        Label::StatLoaded => ("Geladen", "Loaded"),
        Label::StatProcessing => ("In Bearbeitung", "Processing"),
        Label::StatErrors => ("Fehler", "Errors"),
        Label::SettingsStatusError => ("Fehler beim Laden des Status.", "Error loading status."),
        Label::SettingsAboutHeading => ("Über Open Eyes", "About Open Eyes"),
        Label::SettingsAboutText => ("Open Eyes macht öffentliche Regierungsdaten von GovData.de für alle zugänglich. Stellen Sie einfach eine Frage im Chat und erhalten Sie Antworten mit automatischen Visualisierungen — ganz ohne technische Vorkenntnisse.", "Open Eyes makes public government data from GovData.de accessible to everyone. Simply ask a question in the chat and receive answers with automatic visualizations — no technical knowledge required."),
        Label::NavHome => ("Startseite", "Home"),
        Label::NavCatalog => ("Datenkatalog", "Catalog"),
        Label::NavAnalytics => ("Auswertungen", "Analytics"),
        Label::NavSettings => ("Einstellungen", "Settings"),
    }
}

/// A text in the interface language.
pub fn label(l: Label, language: &str) -> (r: &'static str)
    ensures
        r@ == label_text(l, language@),
{
    let (de, en) = label_strs(l);
    if german(language) {
        de
    } else {
        en
    }
}

/// The questions the chat panel suggests while it is empty.
pub open spec fn chat_suggestion_texts(german: bool) -> Seq<Seq<char>> {
    if german {
        seq![
            "Welche Kategorien haben die meisten Datensätze?"@,
            "Zeige die neuesten Datensätze"@,
            "Welche Organisationen veröffentlichen am meisten?"@,
            "Welche Datenformate werden am häufigsten genutzt?"@,
        ]
    } else {
        seq![
            "Which categories have the most data?"@,
            "Show the latest published datasets"@,
            "Which organizations publish the most?"@,
            "What data formats are most common?"@,
        ]
    }
}

/// The questions the chat panel suggests, in the interface language.
pub fn chat_suggestions(language: &str) -> (r: Vec<&'static str>)
    ensures
        r@.len() == 4,
        forall|i: int| 0 <= i < 4 ==> #[trigger] r@[i]@ == chat_suggestion_texts(is_german(language@))[i],
{
    if german(language) {
        vec![
            "Welche Kategorien haben die meisten Datensätze?",
            "Zeige die neuesten Datensätze",
            "Welche Organisationen veröffentlichen am meisten?",
            "Welche Datenformate werden am häufigsten genutzt?",
        ]
    } else {
        vec![
            "Which categories have the most data?",
            "Show the latest published datasets",
            "Which organizations publish the most?",
            "What data formats are most common?",
        ]
    }
}

/// The questions the home page suggests, each with its hint.
pub open spec fn home_suggestion_texts(german: bool) -> Seq<(Seq<char>, Seq<char>)> {
    if german {
        seq![
            ("Welche Kategorien haben die meisten Daten?"@, "Entdecken Sie die beliebtesten Themenbereiche"@),
            ("Zeige die neuesten Veröffentlichungen"@, "Sehen Sie, was gerade veröffentlicht wurde"@),
            ("Welche Organisationen veröffentlichen am meisten?"@, "Erfahren Sie, wer am aktivsten ist"@),
            ("Welche Datenformate sind verfügbar?"@, "CSV, JSON und mehr auf einen Blick"@),
        ]
    } else {
        seq![
            ("Which categories have the most data?"@, "Discover the most popular topic areas"@),
            ("Show the latest publications"@, "See what was just published"@),
            ("Which organizations publish the most?"@, "Find out who is most active"@),
            ("What data formats are available?"@, "CSV, JSON and more at a glance"@),
        ]
    }
}

/// The questions the home page suggests, in the interface language.
pub fn home_suggestions(language: &str) -> (r: Vec<(&'static str, &'static str)>)
    ensures
        r@.len() == 4,
        forall|i: int|
            0 <= i < 4 ==> (#[trigger] r@[i]).0@ == home_suggestion_texts(is_german(language@))[i].0
                && r@[i].1@ == home_suggestion_texts(is_german(language@))[i].1,
{
    if german(language) {
        vec![
            ("Welche Kategorien haben die meisten Daten?", "Entdecken Sie die beliebtesten Themenbereiche"),
            ("Zeige die neuesten Veröffentlichungen", "Sehen Sie, was gerade veröffentlicht wurde"),
            ("Welche Organisationen veröffentlichen am meisten?", "Erfahren Sie, wer am aktivsten ist"),
            ("Welche Datenformate sind verfügbar?", "CSV, JSON und mehr auf einen Blick"),
        ]
    } else {
        vec![
            ("Which categories have the most data?", "Discover the most popular topic areas"),
            ("Show the latest publications", "See what was just published"),
            ("Which organizations publish the most?", "Find out who is most active"),
            ("What data formats are available?", "CSV, JSON and more at a glance"),
        ]
    }
}

// ---------------------------------------------------------------------------
// Chat panel
// ---------------------------------------------------------------------------

/// A chat message as plain texts.
pub struct EntryView {
    pub role: Seq<char>,
    pub content: Seq<char>,
    pub sql: Seq<char>,
    pub chart_spec: Seq<char>,
}

/// The texts of a chat message.
pub open spec fn entry_view(e: MessageEntry) -> EntryView {
    EntryView { role: e.role@, content: e.content@, sql: e.sql@, chart_spec: e.chart_spec@ }
}

/// The texts of a list of chat messages.
pub open spec fn entries_view(es: Seq<MessageEntry>) -> Seq<EntryView> {
    Seq::new(es.len(), |i: int| entry_view(es[i]))
}

/// The user's message for a question.
pub open spec fn user_view(question: Seq<char>) -> EntryView {
    EntryView { role: "user"@, content: question, sql: Seq::empty(), chart_spec: Seq::empty() }
}

/// The assistant's message for the outcome of a question (see
/// `assistant_entry`).
pub open spec fn answer_view(outcome: Result<(Seq<char>, Seq<char>, Seq<char>), Seq<char>>) -> EntryView {
    match outcome {
        Ok((summary, sql, chart)) => EntryView {
            role: "assistant"@,
            content: summary,
            sql,
            chart_spec: chart,
        },
        Err(e) => EntryView {
            role: "assistant"@,
            content: APOLOGY@ + e,
            sql: Seq::empty(),
            chart_spec: Seq::empty(),
        },
    }
}

/// The texts of an outcome as the chat panel receives it.
pub open spec fn outcome_view(outcome: Result<(String, String, String), String>) -> Result<
    (Seq<char>, Seq<char>, Seq<char>),
    Seq<char>,
> {
    match outcome {
        Ok((a, b, c)) => Ok((a@, b@, c@)),
        Err(e) => Err(e@),
    }
}

/// The text of a question that was sent, if one was.
pub open spec fn sent_view(sent: Option<String>) -> Option<Seq<char>> {
    match sent {
        Some(q) => Some(q@),
        None => None,
    }
}

/// The chat panel as plain values: the messages shown, the text in the input
/// field, and whether an answer is pending.
pub struct ChatPanelView {
    pub messages: Seq<EntryView>,
    pub input: Seq<char>,
    pub loading: bool,
}

/// The chat panel beside every page.
pub struct ChatPanelState {
    pub messages: Vec<MessageEntry>,
    pub input: String,
    pub loading: bool,
}

impl View for ChatPanelState {
    type V = ChatPanelView;

    open spec fn view(&self) -> ChatPanelView {
        ChatPanelView {
            messages: entries_view(self.messages@),
            input: self.input@,
            loading: self.loading,
        }
    }
}

/// Sending the typed question (the Enter key or the send button): it is sent
/// when no answer is pending and it is not blank; the input is then cleared,
/// the question shown and the panel waits. Otherwise nothing changes.
pub open spec fn submit_step(s: ChatPanelView) -> (ChatPanelView, Option<Seq<char>>) {
    if !s.loading && trim_ws(s.input).len() > 0 {
        (
            ChatPanelView {
                messages: s.messages.push(user_view(s.input)),
                input: Seq::empty(),
                loading: true,
            },
            Some(s.input),
        )
    } else {
        (s, None)
    }
}

/// Asking a question handed over by a page (a suggestion on the home page):
/// it is sent when it is not empty and no answer is pending; the input field
/// keeps its text.
pub open spec fn prefill_step(s: ChatPanelView, q: Seq<char>) -> (ChatPanelView, Option<Seq<char>>) {
    if q.len() > 0 && !s.loading {
        (
            ChatPanelView {
                messages: s.messages.push(user_view(q)),
                input: s.input,
                loading: true,
            },
            Some(q),
        )
    } else {
        (s, None)
    }
}

/// Asking one of the suggested questions (offered only while the panel is
/// empty and idle): it is shown and sent.
pub open spec fn suggestion_step(s: ChatPanelView, q: Seq<char>) -> ChatPanelView {
    ChatPanelView { messages: s.messages.push(user_view(q)), input: s.input, loading: true }
}

/// Receiving the outcome of a question: the assistant's message is shown and
/// the panel stops waiting.
pub open spec fn receive_step(
    s: ChatPanelView,
    outcome: Result<(Seq<char>, Seq<char>, Seq<char>), Seq<char>>,
) -> ChatPanelView {
    ChatPanelView { messages: s.messages.push(answer_view(outcome)), input: s.input, loading: false }
}

/// Whether the suggested questions are offered: the panel is empty and idle.
pub open spec fn offers_suggestions(s: ChatPanelView) -> bool {
    s.messages.len() == 0 && !s.loading
}

impl ChatPanelState {
    /// An empty, idle panel.
    pub fn new() -> (r: ChatPanelState)
        ensures
            r@.messages.len() == 0,
            r@.input.len() == 0,
            !r@.loading,
    {
        let r = ChatPanelState { messages: Vec::new(), input: String::new(), loading: false };
        assert(r@.messages =~= Seq::<EntryView>::empty());
        r
    }

    /// The text of the input field changes.
    pub fn set_input(&mut self, text: String)
        ensures
            final(self)@ == (ChatPanelView { input: text@, ..old(self)@ }),
    {
        self.input = text;
    }

    /// Sends the typed question, if it may be sent (`submit_step`), and
    /// returns it.
    pub fn submit_input(&mut self) -> (sent: Option<String>)
        ensures
            (final(self)@, sent_view(sent)) == submit_step(old(self)@),
    {
        let ghost before = self@;
        let blank = trim_str(self.input.as_str(), TrimSet::Whitespace).unicode_len() == 0;
        if self.loading || blank {
            return None;
        }
        let q = self.input.clone();
        self.input = String::new();
        self.messages.push(user_entry(q.clone()));
        self.loading = true;
        assert(self@.messages =~= before.messages.push(user_view(before.input)));
        Some(q)
    }

    /// Asks a question handed over by a page, if it may be asked
    /// (`prefill_step`), and returns it.
    pub fn prefill(&mut self, question: String) -> (sent: Option<String>)
        ensures
            (final(self)@, sent_view(sent)) == prefill_step(old(self)@, question@),
    {
        let ghost before = self@;
        if question.unicode_len() == 0 || self.loading {
            return None;
        }
        self.messages.push(user_entry(question.clone()));
        self.loading = true;
        assert(self@.messages =~= before.messages.push(user_view(question@)));
        Some(question)
    }

    /// Asks one of the suggested questions and returns it.
    pub fn ask_suggestion(&mut self, question: String) -> (sent: String)
        ensures
            final(self)@ == suggestion_step(old(self)@, question@),
            sent@ == question@,
    {
        let ghost before = self@;
        self.messages.push(user_entry(question.clone()));
        self.loading = true;
        assert(self@.messages =~= before.messages.push(user_view(question@)));
        question
    }

    /// Shows the outcome of the pending question.
    pub fn receive(&mut self, outcome: Result<(String, String, String), String>)
        ensures
            final(self)@ == receive_step(old(self)@, outcome_view(outcome)),
    {
        let ghost before = self@;
        let ghost o = outcome_view(outcome);
        let entry = assistant_entry(outcome);
        self.messages.push(entry);
        self.loading = false;
        assert(entry.sql@ =~= answer_view(o).sql);
        assert(entry.chart_spec@ =~= answer_view(o).chart_spec);
        assert(entry_view(entry) == answer_view(o));
        assert(self@.messages =~= before.messages.push(answer_view(o)));
    }

    /// Whether the suggested questions are offered.
    pub fn shows_suggestions(&self) -> (b: bool)
        ensures
            b == offers_suggestions(self@),
    {
        self.messages.len() == 0 && !self.loading
    }
}

/// The user's message for a question.
fn user_entry(question: String) -> (r: MessageEntry)
    ensures
        entry_view(r) == user_view(question@),
{
    MessageEntry {
        role: "user".to_owned(),
        content: question,
        sql: String::new(),
        chart_spec: String::new(),
    }
}

/// While an answer is pending no further question is sent, whichever way it
/// is asked; a sent question leaves the panel waiting for its answer.
pub proof fn lemma_one_question_at_a_time(s: ChatPanelView, q: Seq<char>)
    ensures
        submit_step(s).1 is Some ==> submit_step(s).0.loading,
        prefill_step(s, q).1 is Some ==> prefill_step(s, q).0.loading,
        s.loading ==> submit_step(s).1 is None && submit_step(s).0 == s,
        s.loading ==> prefill_step(s, q).1 is None && prefill_step(s, q).0 == s,
{
}

/// Asking and answering a question adds exactly the question and then its
/// answer to the messages, and leaves the panel idle with an empty input.
pub proof fn lemma_question_then_answer(
    s: ChatPanelView,
    outcome: Result<(Seq<char>, Seq<char>, Seq<char>), Seq<char>>,
)
    requires
        submit_step(s).1 is Some,
    ensures
        receive_step(submit_step(s).0, outcome).messages == s.messages.push(user_view(s.input)).push(
            answer_view(outcome),
        ),
        !receive_step(submit_step(s).0, outcome).loading,
        receive_step(submit_step(s).0, outcome).input.len() == 0,
{
}

// ---------------------------------------------------------------------------
// Catalog pages
// ---------------------------------------------------------------------------

/// How many datasets a catalog page shows.
pub const PAGE_SIZE: u64 = 20;

/// The number of catalog pages for `total` matching datasets (rounded up).
pub open spec fn page_count(total: nat) -> nat {
    ((total + 19) / 20) as nat
}

/// The largest page number whose offset fits in a `u64`.
pub open spec fn last_page() -> nat {
    (u64::MAX / 20) as nat
}

/// The catalog's search text and current page (counted from 0).
pub struct CatalogPager {
    pub query: String,
    pub page: u64,
}

/// The catalog pager as plain values.
pub struct PagerView {
    pub query: Seq<char>,
    pub page: nat,
}

impl View for CatalogPager {
    type V = PagerView;

    open spec fn view(&self) -> PagerView {
        PagerView { query: self.query@, page: self.page as nat }
    }
}

/// Whether a pager's page is one whose offset can be computed.
pub open spec fn pager_wf(p: PagerView) -> bool {
    p.page <= last_page()
}

/// Whether the "previous" button is enabled: not on the first page.
pub open spec fn can_go_back(p: PagerView) -> bool {
    p.page != 0
}

/// Whether the "next" button is enabled: a further page exists.
pub open spec fn can_go_forward(p: PagerView, total: nat) -> bool {
    p.page + 1 < page_count(total)
}

/// The "previous" button: one page back, never below the first.
pub open spec fn back_step(p: PagerView) -> PagerView {
    PagerView { query: p.query, page: if p.page == 0 { 0 } else { (p.page - 1) as nat } }
}

/// The "next" button: one page on, where it is enabled.
pub open spec fn forward_step(p: PagerView, total: nat) -> PagerView {
    if can_go_forward(p, total) {
        PagerView { query: p.query, page: p.page + 1 }
    } else {
        p
    }
}

/// Typing a new search text: the search starts again from the first page.
pub open spec fn query_step(p: PagerView, q: Seq<char>) -> PagerView {
    PagerView { query: q, page: 0 }
}

/// The page label: `Seite {n} von {pages}` in German, `Page {n} of {pages}`
/// otherwise, with pages counted from 1.
pub open spec fn page_label_text(p: PagerView, total: nat, language: Seq<char>) -> Seq<char> {
    if is_german(language) {
        "Seite "@ + decimal(p.page + 1) + " von "@ + decimal(page_count(total))
    } else {
        "Page "@ + decimal(p.page + 1) + " of "@ + decimal(page_count(total))
    }
}

/// The number of catalog pages for `total` matching datasets.
pub fn total_pages(total: u64) -> (r: u64)
    ensures
        r == page_count(total as nat),
{
    total / 20 + if total % 20 == 0 { 0 } else { 1 }
}

impl CatalogPager {
    /// An empty search on the first page.
    pub fn new() -> (r: CatalogPager)
        ensures
            r@.query.len() == 0,
            r@.page == 0,
            pager_wf(r@),
    {
        CatalogPager { query: String::new(), page: 0 }
    }

    /// The offset and limit of the current page's search.
    pub fn search_window(&self) -> (r: (u64, u64))
        requires
            pager_wf(self@),
        ensures
            r.0 == self@.page * 20,
            r.1 == PAGE_SIZE,
    {
        (self.page * PAGE_SIZE, PAGE_SIZE)
    }

    /// Whether the "previous" button is enabled.
    pub fn has_previous(&self) -> (b: bool)
        ensures
            b == can_go_back(self@),
    {
        self.page != 0
    }

    /// Whether the "next" button is enabled for `total` matching datasets.
    pub fn has_next(&self, total: u64) -> (b: bool)
        requires
            pager_wf(self@),
        ensures
            b == can_go_forward(self@, total as nat),
    {
        self.page + 1 < total_pages(total)
    }

    /// The "previous" button.
    pub fn previous(&mut self)
        requires
            pager_wf(old(self)@),
        ensures
            final(self)@ == back_step(old(self)@),
            pager_wf(final(self)@),
    {
        self.page = self.page.saturating_sub(1);
    }

    /// The "next" button, for `total` matching datasets.
    pub fn next(&mut self, total: u64)
        requires
            pager_wf(old(self)@),
        ensures
            final(self)@ == forward_step(old(self)@, total as nat),
            pager_wf(final(self)@),
    {
        if self.has_next(total) {
            self.page = self.page + 1;
        }
    }

    /// A new search text.
    pub fn set_query(&mut self, query: String)
        ensures
            final(self)@ == query_step(old(self)@, query@),
            pager_wf(final(self)@),
    {
        self.query = query;
        self.page = 0;
    }

    /// The label between the buttons, for `total` matching datasets.
    pub fn page_label(&self, total: u64, language: &str) -> (r: String)
        requires
            pager_wf(self@),
        ensures
            r@ == page_label_text(self@, total as nat, language@),
    {
        let shown = u64_to_decimal(self.page + 1);
        let pages = u64_to_decimal(total_pages(total));
        let mut r = if german(language) {
            "Seite ".to_owned()
        } else {
            "Page ".to_owned()
        };
        r.append(shown.as_str());
        r.append(if german(language) {
            " von "
        } else {
            " of "
        });
        r.append(pages.as_str());
        r
    }
}

/// Every matching dataset is on exactly one page, and that page exists: the
/// dataset at position `i` is shown on page `i / 20`.
pub proof fn lemma_pages_cover(total: nat, i: nat)
    requires
        i < total,
    ensures
        i / 20 < page_count(total),
        (i / 20) * 20 <= i < (i / 20) * 20 + 20,
{
}

/// "Next" then "previous" returns to the same page; "next" never leaves the
/// pages that exist; a new search starts on the first page.
pub proof fn lemma_pager_moves(p: PagerView, total: nat, q: Seq<char>)
    ensures
        can_go_forward(p, total) ==> back_step(forward_step(p, total)) == p,
        can_go_forward(p, total) ==> forward_step(p, total).page < page_count(total),
        p.page < page_count(total) ==> forward_step(p, total).page < page_count(total),
        query_step(p, q).page == 0 && !can_go_back(query_step(p, q)),
{
}

// ---------------------------------------------------------------------------
// Navigation
// ---------------------------------------------------------------------------

/// The dashboard's screens.
#[derive(Debug, Clone)]
pub enum Route {
    HomePage,
    CatalogPage,
    DatasetDetailPage { dataset_id: String },
    AnalyticsPage,
    SettingsPage,
}

/// Whether two routes are the same screen (a dataset's page: of the same
/// dataset).
pub open spec fn same_route(a: Route, b: Route) -> bool {
    match (a, b) {
        (Route::HomePage, Route::HomePage) => true,
        (Route::CatalogPage, Route::CatalogPage) => true,
        (Route::DatasetDetailPage { dataset_id: x }, Route::DatasetDetailPage { dataset_id: y }) => x@
            == y@,
        (Route::AnalyticsPage, Route::AnalyticsPage) => true,
        (Route::SettingsPage, Route::SettingsPage) => true,
        _ => false,
    }
}

/// Whether a navigation entry is highlighted on the current screen: its own
/// screen, and the catalog's entry also on a dataset's page.
pub open spec fn nav_active(current: Route, item: Route) -> bool {
    (current is DatasetDetailPage && item is CatalogPage) || same_route(current, item)
}

/// Whether two routes are the same screen (executable form).
pub fn routes_equal(a: &Route, b: &Route) -> (r: bool)
    ensures
        r == same_route(*a, *b),
{
    match (a, b) {
        (Route::HomePage, Route::HomePage) => true,
        (Route::CatalogPage, Route::CatalogPage) => true,
        (Route::DatasetDetailPage { dataset_id: x }, Route::DatasetDetailPage { dataset_id: y }) => {
            str_equal(x.as_str(), y.as_str())
        },
        (Route::AnalyticsPage, Route::AnalyticsPage) => true,
        (Route::SettingsPage, Route::SettingsPage) => true,
        _ => false,
    }
}

/// Whether a navigation entry is highlighted (executable form).
pub fn is_nav_active(current: &Route, item: &Route) -> (r: bool)
    ensures
        r == nav_active(*current, *item),
{
    match (current, item) {
        (Route::DatasetDetailPage { .. }, Route::CatalogPage) => true,
        _ => routes_equal(current, item),
    }
}

/// The class of a navigation entry.
pub fn nav_class(current: &Route, item: &Route) -> (r: &'static str)
    ensures
        r@ == (if nav_active(*current, *item) {
            "nav-item active"@
        } else {
            "nav-item"@
        }),
{
    if is_nav_active(current, item) {
        "nav-item active"
    } else {
        "nav-item"
    }
}

/// The sidebar's entries in order: home, catalog, analytics, settings, with
/// their texts.
pub open spec fn nav_entry(i: int) -> (Label, Route) {
    if i == 0 {
        (Label::NavHome, Route::HomePage)
    } else if i == 1 {
        (Label::NavCatalog, Route::CatalogPage)
    } else if i == 2 {
        (Label::NavAnalytics, Route::AnalyticsPage)
    } else {
        (Label::NavSettings, Route::SettingsPage)
    }
}

/// The sidebar's entries.
pub fn nav_items() -> (r: Vec<(Label, Route)>)
    ensures
        r@.len() == 4,
        forall|i: int| 0 <= i < 4 ==> #[trigger] r@[i] == nav_entry(i),
{
    vec![
        (Label::NavHome, Route::HomePage),
        (Label::NavCatalog, Route::CatalogPage),
        (Label::NavAnalytics, Route::AnalyticsPage),
        (Label::NavSettings, Route::SettingsPage),
    ]
}

/// On every screen exactly one sidebar entry is highlighted; on a dataset's
/// page it is the catalog's.
pub proof fn lemma_one_nav_entry_active(current: Route)
    ensures
        forall|i: int, j: int|
            0 <= i < 4 && 0 <= j < 4 && nav_active(current, #[trigger] nav_entry(i).1) && nav_active(
                current,
                #[trigger] nav_entry(j).1,
            ) ==> i == j,
        exists|i: int| 0 <= i < 4 && nav_active(current, #[trigger] nav_entry(i).1),
{
    let k: int = match current {
        Route::HomePage => 0,
        Route::CatalogPage => 1,
        Route::DatasetDetailPage { .. } => 1,
        Route::AnalyticsPage => 2,
        Route::SettingsPage => 3,
    };
    assert(nav_active(current, nav_entry(k).1));
}

/// The sidebar's class: `sidebar collapsed` when folded.
pub fn sidebar_class(collapsed: bool) -> (r: &'static str)
    ensures
        r@ == (if collapsed {
            "sidebar collapsed"@
        } else {
            "sidebar"@
        }),
{
    if collapsed {
        "sidebar collapsed"
    } else {
        "sidebar"
    }
}

/// The class of a language button: active when it is the current language.
pub fn language_button_class(current: &str, code: &str) -> (r: &'static str)
    ensures
        r@ == (if current@ == code@ {
            "lang-btn active"@
        } else {
            "lang-btn"@
        }),
{
    if str_equal(current, code) {
        "lang-btn active"
    } else {
        "lang-btn"
    }
}

/// The style of a figure on a statistics card: `color: {color}` where a
/// colour is given, none otherwise.
pub fn stat_value_style(color: &str) -> (r: String)
    ensures
        r@ == (if color@.len() == 0 {
            Seq::<char>::empty()
        } else {
            "color: "@ + color@
        }),
{
    if color.unicode_len() == 0 {
        String::new()
    } else {
        let mut r = "color: ".to_owned();
        r.append(color);
        r
    }
}

// ---------------------------------------------------------------------------
// Application shell
// ---------------------------------------------------------------------------

/// What the frame around the pages holds: whether the chat panel is shown,
/// the interface language, and a question a page handed to the chat panel.
pub struct ShellState {
    pub chat_visible: bool,
    pub language: String,
    pub chat_prefill: String,
}

impl ShellState {
    /// The chat panel shown, German, and no question handed over.
    pub fn new() -> (r: ShellState)
        ensures
            r.chat_visible,
            r.language@ == "de"@,
            r.chat_prefill@.len() == 0,
    {
        ShellState { chat_visible: true, language: "de".to_owned(), chat_prefill: String::new() }
    }

    /// The chat panel's close button, or the button that opens it again.
    pub fn set_chat_visible(&mut self, visible: bool)
        ensures
            final(self).chat_visible == visible,
            final(self).language == old(self).language,
            final(self).chat_prefill == old(self).chat_prefill,
    {
        self.chat_visible = visible;
    }

    /// The language switcher.
    pub fn set_language(&mut self, language: String)
        ensures
            final(self).language == language,
            final(self).chat_visible == old(self).chat_visible,
            final(self).chat_prefill == old(self).chat_prefill,
    {
        self.language = language;
    }

    /// A page hands a question to the chat panel.
    pub fn hand_over(&mut self, question: String)
        ensures
            final(self).chat_prefill == question,
            final(self).chat_visible == old(self).chat_visible,
            final(self).language == old(self).language,
    {
        self.chat_prefill = question;
    }

    /// The chat panel took the handed-over question.
    pub fn handed_over(&mut self)
        ensures
            final(self).chat_prefill@.len() == 0,
            final(self).chat_visible == old(self).chat_visible,
            final(self).language == old(self).language,
    {
        self.chat_prefill = String::new();
    }
}

/// The chat panel's class: hidden while closed.
pub fn chat_panel_class(visible: bool) -> (r: &'static str)
    ensures
        r@ == (if visible {
            "chat-panel"@
        } else {
            "chat-panel hidden"@
        }),
{
    if visible {
        "chat-panel"
    } else {
        "chat-panel hidden"
    }
}

// ---------------------------------------------------------------------------
// Messages and charts
// ---------------------------------------------------------------------------

/// The class of a chat message: the user's or the assistant's.
pub fn bubble_class(role: &str) -> (r: &'static str)
    ensures
        r@ == (if role@ == "user"@ {
            "chat-message user"@
        } else {
            "chat-message assistant"@
        }),
{
    if str_equal(role, "user") {
        "chat-message user"
    } else {
        "chat-message assistant"
    }
}

/// Whether a chart option is drawn: it is neither empty nor `{}`.
pub open spec fn draws_chart(option_json: Seq<char>) -> bool {
    option_json.len() != 0 && option_json != "{}"@
}

/// Executable form of `draws_chart`.
pub fn chart_drawn(option_json: &str) -> (b: bool)
    ensures
        b == draws_chart(option_json@),
{
    option_json.unicode_len() != 0 && !str_equal(option_json, "{}")
}

/// The id of the `n`-th chart element: `echart-{n}`.
pub fn chart_element_id(n: u64) -> (r: String)
    ensures
        r@ == "echart-"@ + decimal(n as nat),
{
    let digits = u64_to_decimal(n);
    let mut r = "echart-".to_owned();
    r.append(digits.as_str());
    r
}

/// The script text before the element id.
pub const CHART_SCRIPT_HEAD: &'static str = "\n                (function() {\n                    var el = document.getElementById('";

/// The script text between the element id and the chart option.
pub const CHART_SCRIPT_MIDDLE: &'static str = "');\n                    if (!el || !window.echarts) return;\n                    var existing = echarts.getInstanceByDom(el);\n                    if (existing) existing.dispose();\n                    var chart = echarts.init(el, 'dark');\n                    chart.setOption(";

/// The script text after the chart option.
pub const CHART_SCRIPT_TAIL: &'static str = ");\n                    window.addEventListener('resize', function() { chart.resize(); });\n                })();\n                ";

/// The script that draws a chart option into its element (replacing a chart
/// drawn there before) and redraws it when the window is resized.
pub fn chart_script(element_id: &str, option_json: &str) -> (r: String)
    ensures
        r@ == CHART_SCRIPT_HEAD@ + element_id@ + CHART_SCRIPT_MIDDLE@ + option_json@
            + CHART_SCRIPT_TAIL@,
{
    let mut r = CHART_SCRIPT_HEAD.to_owned();
    r.append(element_id);
    r.append(CHART_SCRIPT_MIDDLE);
    r.append(option_json);
    r.append(CHART_SCRIPT_TAIL);
    r
}

// ---------------------------------------------------------------------------
// Table preview
// ---------------------------------------------------------------------------

/// How a value is shown in a previewed table: `null` as an em dash, anything
/// else as its text (`value_text`).
pub open spec fn cell_display_text(v: JsonScalar) -> Seq<char> {
    match v {
        JsonScalar::Null => "\u{2014}"@,
        _ => value_text(v),
    }
}

/// The columns of a previewed table: those of its first row, in order.
pub open spec fn preview_columns(rows: Seq<JsonRow>) -> Seq<Seq<char>> {
    if rows.len() == 0 {
        Seq::empty()
    } else {
        Seq::new(rows[0].fields@.len(), |i: int| rows[0].fields@[i].0@)
    }
}

/// The shown cells of one row under the given columns (a column the row
/// lacks shows as `null` does).
pub open spec fn preview_row(row: JsonRow, columns: Seq<Seq<char>>) -> Seq<Seq<char>> {
    Seq::new(columns.len(), |c: int| cell_display_text(field_value(row.fields@, columns[c])))
}

/// How a value is shown in a previewed table.
pub fn cell_display(v: &JsonScalar) -> (r: String)
    ensures
        r@ == cell_display_text(*v),
{
    match v {
        JsonScalar::Null => "\u{2014}".to_owned(),
        _ => value_text_of(v),
    }
}

/// The preview of a table's first rows: the columns of the first row, and
/// each row's shown cells under them.
pub fn table_preview(rows: &Vec<JsonRow>) -> (r: (Vec<String>, Vec<Vec<String>>))
    ensures
        r.0.deep_view() == preview_columns(rows@),
        r.1@.len() == rows@.len(),
        forall|i: int|
            0 <= i < rows@.len() ==> #[trigger] r.1@[i].deep_view() == preview_row(
                rows@[i],
                preview_columns(rows@),
            ),
{
    let mut columns: Vec<String> = Vec::new();
    if rows.len() > 0 {
        let first = &rows[0];
        let mut k: usize = 0;
        while k < first.fields.len()
            invariant
                rows@.len() > 0,
                *first == rows@[0],
                k <= first.fields@.len(),
                columns.deep_view() == Seq::new(k as nat, |i: int| first.fields@[i].0@),
            decreases first.fields@.len() - k,
        {
            let ghost before = columns.deep_view();
            let name = first.fields[k].0.as_str().to_owned();
            columns.push(name);
            assert(columns.deep_view() =~= before.push(first.fields@[k as int].0@));
            k = k + 1;
            assert(columns.deep_view() =~= Seq::new(k as nat, |i: int| first.fields@[i].0@));
        }
    }
    assert(columns.deep_view() =~= preview_columns(rows@));
    let mut grid: Vec<Vec<String>> = Vec::new();
    let mut i: usize = 0;
    while i < rows.len()
        invariant
            i <= rows@.len(),
            columns.deep_view() == preview_columns(rows@),
            grid@.len() == i,
            forall|j: int|
                0 <= j < i ==> #[trigger] grid@[j].deep_view() == preview_row(
                    rows@[j],
                    preview_columns(rows@),
                ),
        decreases rows@.len() - i,
    {
        let row = &rows[i];
        let mut cells: Vec<String> = Vec::new();
        let mut c: usize = 0;
        while c < columns.len()
            invariant
                i < rows@.len(),
                *row == rows@[i as int],
                c <= columns@.len(),
                columns.deep_view() == preview_columns(rows@),
                cells.deep_view() == preview_row(*row, columns.deep_view()).subrange(0, c as int),
            decreases columns@.len() - c,
        {
            let shown = match find_field(row, columns[c].as_str()) {
                Some(v) => cell_display(v),
                None => "\u{2014}".to_owned(),
            };
            let ghost before = cells.deep_view();
            cells.push(shown);
            assert(cells.deep_view() =~= before.push(shown@));
            c = c + 1;
            assert(cells.deep_view() =~= preview_row(*row, columns.deep_view()).subrange(
                0,
                c as int,
            ));
        }
        assert(cells.deep_view() =~= preview_row(*row, columns.deep_view()));
        grid.push(cells);
        i = i + 1;
    }
    (columns, grid)
}

// ---------------------------------------------------------------------------
// Dataset cards and resources
// ---------------------------------------------------------------------------

/// How many bytes of a description a dataset card shows.
pub const CARD_DESCRIPTION_BYTES: usize = 150;

/// Whether a card can cut a description after its first 150 bytes: it is no
/// longer, or byte 150 starts a character (slicing the text anywhere else
/// panics).
pub open spec fn card_cut_on_boundary(d: Seq<char>) -> bool {
    encode_utf8(d).len() <= 150 || is_char_boundary(encode_utf8(d), 150)
}

/// A card's description: one longer than 150 bytes is cut after 150 bytes
/// and followed by `...`.
pub open spec fn card_description_text(d: Seq<char>) -> Seq<char> {
    if encode_utf8(d).len() > 150 {
        decode_utf8(encode_utf8(d).subrange(0, 150)) + "..."@
    } else {
        d
    }
}

/// A card's description.
pub fn card_description(description: &str) -> (r: String)
    requires
        card_cut_on_boundary(description@),
    ensures
        r@ == card_description_text(description@),
{
    let n = description.as_bytes().len();
    proof {
        encode_utf8_valid_utf8(description@);
        encode_utf8_decode_utf8(description@);
    }
    if n <= CARD_DESCRIPTION_BYTES {
        return description.to_owned();
    }
    let (head, _tail) = description.split_at(CARD_DESCRIPTION_BYTES);
    proof {
        assert(head.spec_bytes() == description.spec_bytes().subrange(0, 150));
        encode_utf8_decode_utf8(head@);
    }
    let mut r = head.to_owned();
    r.append("...");
    r
}

/// The tags a card shows: the first five.
pub fn card_tags(tags: &Vec<String>) -> (r: Vec<String>)
    ensures
        r.deep_view() == tags.deep_view().take(
            if tags@.len() < 5 {
                tags@.len() as int
            } else {
                5
            },
        ),
{
    let n: usize = if tags.len() < 5 {
        tags.len()
    } else {
        5
    };
    let mut r: Vec<String> = Vec::new();
    let mut i: usize = 0;
    while i < n
        invariant
            n <= tags@.len(),
            n == (if tags@.len() < 5 {
                tags@.len() as int
            } else {
                5
            }),
            i <= n,
            r.deep_view() == tags.deep_view().take(i as int),
        decreases n - i,
    {
        let ghost before = r.deep_view();
        let t = tags[i].as_str().to_owned();
        r.push(t);
        assert(r.deep_view() =~= before.push(tags@[i as int]@));
        i = i + 1;
        assert(r.deep_view() =~= tags.deep_view().take(i as int));
    }
    r
}

/// A card's resource count: `{n} resources`.
pub fn resources_label(count: u64) -> (r: String)
    ensures
        r@ == decimal(count as nat) + " resources"@,
{
    let mut r = u64_to_decimal(count);
    r.append(" resources");
    r
}

/// The state line of a resource on a dataset's page:
/// `{status} • {rows} rows`.
pub fn resource_status_line(status: &str, row_count: i64) -> (r: String)
    ensures
        r@ == status@ + " \u{2022} "@ + decimal_int(row_count as int) + " rows"@,
{
    let rows = i64_to_decimal(row_count);
    let mut r = status.to_owned();
    r.append(" \u{2022} ");
    r.append(rows.as_str());
    r.append(" rows");
    r
}

} // verus!
