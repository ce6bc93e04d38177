use datagen_tui::app::App;
use datagen_tui::channel::ChannelMsg;
use datagen_tui::channel::JobKind;
use datagen_tui::data::default_bates_padding;
use datagen_tui::data::default_bates_prefix;
use datagen_tui::data::default_bates_start;
use datagen_tui::data::default_forward_pct;
use datagen_tui::data::default_reply_pct;
use datagen_tui::data::Settings;
use datagen_tui::sections::Section;

fn fresh_app() -> App {
    App::new(None, String::new(), String::new())
}

fn sample_settings() -> Settings {
    Settings {
        selected_model_index: 2,
        provider_index: 0,
        openrouter_model_index: 0,
        total_files: 40,
        percent_attachments: 55,
        selected_topics: vec!["Audit".to_string()],
        company_size: 8,
        companies: Vec::new(),
        convert_combine: true,
        bates_prefix: "ACME".to_string(),
        bates_separator_index: 1,
        bates_start: 100,
        bates_padding: 5,
        reply_percent: 70,
        forward_percent: 20,
        theme_index: 2,
    }
}

#[test]
fn defaults_when_nothing_was_saved() {
    let app = fresh_app();
    assert_eq!(app.current_section, Section::Model);
    assert_eq!(app.sidebar_index, 0);
    assert_eq!(app.provider_index, 0);
    assert_eq!(app.available_models[0], "gemini-2.5-flash".to_string());
    assert_eq!(app.available_models.len(), 4);
    assert_eq!(app.total_files, 25);
    assert_eq!(app.percent_attachments, 30);
    assert_eq!(app.reply_percent, 80);
    assert_eq!(app.forward_percent, 10);
    assert_eq!(app.company_size, 10);
    assert_eq!(app.bates_prefix, "BATES".to_string());
    assert_eq!(app.bates_start, 1);
    assert_eq!(app.bates_padding, 7);
    assert!(!app.is_generating && !app.is_converting && !app.is_stamping);
    assert_eq!(
        app.logs.lines,
        vec![
            "Application initialized".to_string(),
            "No saved settings found, using defaults".to_string(),
        ]
    );
}

#[test]
fn saved_record_wins_over_defaults() {
    let app = App::new(Some(sample_settings()), "key-a".to_string(), "key-b".to_string());
    assert_eq!(app.selected_model_index, 2);
    assert_eq!(app.total_files, 40);
    assert_eq!(app.percent_attachments, 55);
    assert_eq!(app.reply_percent, 70);
    assert_eq!(app.forward_percent, 20);
    assert_eq!(app.selected_topics, vec!["Audit".to_string()]);
    assert!(app.convert_combine);
    assert_eq!(app.bates_prefix, "ACME".to_string());
    assert_eq!(app.bates_separator_index, 1);
    assert_eq!(app.bates_start, 100);
    assert_eq!(app.bates_padding, 5);
    assert_eq!(app.theme_index, 2);
    assert_eq!(app.settings_cursor, 2);
    assert_eq!(
        app.logs.lines,
        vec![
            "Application initialized".to_string(),
            "Loaded saved settings".to_string(),
        ]
    );
}

#[test]
fn stale_record_is_clamped_into_range() {
    let mut s = sample_settings();
    s.selected_model_index = 99;
    s.total_files = 0;
    s.percent_attachments = 250;
    s.reply_percent = 90;
    s.forward_percent = 90;
    s.bates_separator_index = 7;
    s.bates_start = 0;
    s.bates_padding = 99;
    s.theme_index = 42;
    let app = App::new(Some(s), String::new(), String::new());
    assert_eq!(app.selected_model_index, 0);
    assert_eq!(app.total_files, 1);
    assert_eq!(app.percent_attachments, 100);
    assert_eq!(app.reply_percent, 90);
    assert_eq!(app.forward_percent, 10);
    assert_eq!(app.bates_separator_index, 0);
    assert_eq!(app.bates_start, 1);
    assert_eq!(app.bates_padding, 12);
    assert_eq!(app.theme_index, 0);
}

#[test]
fn nonzero_provider_selects_openrouter() {
    let mut s = sample_settings();
    s.provider_index = 1;
    let app = App::new(Some(s), String::new(), String::new());
    assert_eq!(app.provider_index, 1);
    assert_eq!(app.available_models, vec!["moonshotai/kimi-k2".to_string()]);
    assert_eq!(app.selected_model_index, 0);
}

#[test]
fn snapshot_returns_what_was_loaded() {
    let app = App::new(Some(sample_settings()), String::new(), String::new());
    let snap = app.snapshot_settings();
    assert_eq!(snap.selected_model_index, 2);
    assert_eq!(snap.provider_index, 0);
    assert_eq!(snap.total_files, 40);
    assert_eq!(snap.percent_attachments, 55);
    assert_eq!(snap.selected_topics, vec!["Audit".to_string()]);
    assert_eq!(snap.company_size, 8);
    assert!(snap.convert_combine);
    assert_eq!(snap.bates_prefix, "ACME".to_string());
    assert_eq!(snap.bates_separator_index, 1);
    assert_eq!(snap.bates_start, 100);
    assert_eq!(snap.bates_padding, 5);
    assert_eq!(snap.reply_percent, 70);
    assert_eq!(snap.forward_percent, 20);
    assert_eq!(snap.theme_index, 2);
}

#[test]
fn toggle_provider_stows_and_restores_model_choice() {
    let mut app = fresh_app();
    app.selected_model_index = 3;
    app.toggle_provider();
    assert_eq!(app.provider_index, 1);
    assert_eq!(app.available_models, vec!["moonshotai/kimi-k2".to_string()]);
    assert_eq!(app.selected_model_index, 0);
    assert_eq!(app.gemini_model_index, 3);
    assert_eq!(app.logs.lines.last(), Some(&"Provider: OpenRouter".to_string()));
    app.toggle_provider();
    assert_eq!(app.provider_index, 0);
    assert_eq!(app.selected_model_index, 3);
    assert_eq!(app.available_models.len(), 4);
    assert_eq!(app.logs.lines.last(), Some(&"Provider: Gemini".to_string()));
}

#[test]
fn provider_name_and_key_follow_selection() {
    let mut app = App::new(None, "gem".to_string(), "openr".to_string());
    assert_eq!(app.provider_name(), "gemini");
    assert_eq!(app.current_api_key(), "gem");
    app.toggle_provider();
    assert_eq!(app.provider_name(), "openrouter");
    assert_eq!(app.current_api_key(), "openr");
}

#[test]
fn sentinel_clears_its_flag_exactly_once() {
    let mut app = fresh_app();
    app.is_converting = true;
    let rescan = app.handle_message(ChannelMsg::JobFinished(JobKind::Conversion));
    assert!(rescan);
    assert!(!app.is_converting);
    assert_eq!(app.logs.lines.last(), Some(&"Conversion process finished.".to_string()));
    let rescan_again = app.handle_message(ChannelMsg::JobFinished(JobKind::Conversion));
    assert!(rescan_again);
    assert!(!app.is_converting);
    assert!(!app.is_generating);
    assert!(!app.is_stamping);
}

#[test]
fn plain_message_lands_in_log_feed() {
    let mut app = fresh_app();
    let rescan = app.handle_message(ChannelMsg::LogLine("converted 3 files".to_string()));
    assert!(!rescan);
    assert_eq!(app.logs.lines.last(), Some(&"converted 3 files".to_string()));
}

#[test]
fn update_drains_channel_in_arrival_order() {
    let mut app = fresh_app();
    app.is_generating = true;
    app.log_tx.send(ChannelMsg::LogLine("step one".to_string())).unwrap();
    app.log_tx.send(ChannelMsg::LogLine("step two".to_string())).unwrap();
    app.log_tx.send(ChannelMsg::JobFinished(JobKind::Generation)).unwrap();
    let rescan = app.update();
    assert!(!rescan);
    assert!(!app.is_generating);
    let n = app.logs.lines.len();
    assert_eq!(app.logs.lines[n - 3], "step one".to_string());
    assert_eq!(app.logs.lines[n - 2], "step two".to_string());
    assert_eq!(app.logs.lines[n - 1], "Generation process finished.".to_string());
}

#[test]
fn update_requests_rescan_after_conversion() {
    let mut app = fresh_app();
    app.is_converting = true;
    app.log_tx.send(ChannelMsg::JobFinished(JobKind::Conversion)).unwrap();
    let rescan = app.update();
    assert!(rescan);
    assert!(!app.is_converting);
}

#[test]
fn launch_failed_drops_flag_and_logs_reason() {
    let mut app = fresh_app();
    app.is_generating = true;
    app.launch_failed(JobKind::Generation, "Error saving roster.json: denied".to_string());
    assert!(!app.is_generating);
    assert_eq!(
        app.logs.lines.last(),
        Some(&"Error saving roster.json: denied".to_string())
    );
}

#[test]
fn installed_topic_list_clamps_cursor_and_logs_count() {
    let mut app = fresh_app();
    app.set_generated_topics(vec!["a".to_string(), "b".to_string(), "c".to_string()]);
    assert_eq!(app.logs.lines.last(), Some(&"Randomly selected 3 topics from file".to_string()));
    app.sidebar_index = 2;
    app.current_section = Section::Topics;
    app.topic_panel = 1;
    app.topic_cursor = 2;
    app.set_generated_topics(vec!["x".to_string()]);
    assert_eq!(app.topic_cursor, 0);
    assert_eq!(app.topic_panel, 1);
    app.set_generated_topics(Vec::new());
    assert_eq!(app.topic_cursor, 0);
    assert_eq!(app.topic_panel, 0);
    assert_eq!(app.logs.lines.last(), Some(&"Randomly selected 0 topics from file".to_string()));
}

#[test]
fn installed_scan_results_reset_out_of_range_cursors() {
    let mut app = fresh_app();
    app.set_convert_subfolders(vec!["one".to_string(), "two".to_string()]);
    app.convert_selected_index = 1;
    app.set_convert_subfolders(vec!["solo".to_string()]);
    assert_eq!(app.convert_selected_index, 0);
    app.set_bates_pdfs(vec!["a_combined.pdf".to_string()]);
    assert_eq!(app.bates_file_index, 0);
    app.bates_file_index = 0;
    app.set_bates_pdfs(Vec::new());
    assert_eq!(app.bates_file_index, 0);
}

#[test]
fn section_names_and_ordering() {
    let all = Section::all();
    assert_eq!(all.len(), 9);
    assert_eq!(all[0].as_str(), "Model");
    assert_eq!(all[2].as_str(), "Topics");
    assert_eq!(all[4].as_str(), "Preview");
    assert_eq!(all[7].as_str(), "Bates");
    assert_eq!(all[8].as_str(), "Settings");
}

#[test]
fn named_defaults() {
    assert_eq!(default_reply_pct(), 80);
    assert_eq!(default_forward_pct(), 10);
    assert_eq!(default_bates_prefix(), "BATES".to_string());
    assert_eq!(default_bates_start(), 1);
    assert_eq!(default_bates_padding(), 7);
}
