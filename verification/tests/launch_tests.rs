use datagen_tui::app::App;
use datagen_tui::channel::JobKind;
use datagen_tui::data::Company;
use datagen_tui::data::Employee;
use datagen_tui::events::Effect;
use datagen_tui::events::InputEvent;
use datagen_tui::sections::Focus;
use datagen_tui::sections::Section;

fn fresh_app() -> App {
    App::new(None, "gem-key".to_string(), "or-key".to_string())
}

fn employee(name: &str, title: &str, dept: &str) -> Employee {
    Employee {
        name: name.to_string(),
        email: format!("{}@acme.com", name.to_lowercase().replace(' ', ".")),
        department: dept.to_string(),
        title: title.to_string(),
    }
}

fn acme() -> Company {
    Company {
        company_name: "Acme Innovations".to_string(),
        domain: "acmeinnovations.com".to_string(),
        employees: vec![
            employee("Ada Smith", "Director", "Engineering"),
            employee("Ben Jones", "Manager", "Sales"),
            employee("Cleo Park", "Lead", "Legal"),
        ],
    }
}

#[test]
fn generation_refused_without_companies() {
    let mut app = fresh_app();
    let launch = app.start_generation();
    assert!(launch.is_none());
    assert!(!app.is_generating);
    assert_eq!(app.logs.lines.last(), Some(&"No companies generated!".to_string()));
}

#[test]
fn second_generation_launch_is_refused() {
    let mut app = fresh_app();
    app.set_companies(vec![acme()]);
    let first = app.start_generation();
    assert!(first.is_some());
    assert!(app.is_generating);
    assert_eq!(app.logs.lines.last(), Some(&"Starting email generation...".to_string()));
    let second = app.start_generation();
    assert!(second.is_none());
    assert!(app.is_generating);
    assert_eq!(app.logs.lines.last(), Some(&"Already generating!".to_string()));
}

#[test]
fn generation_launch_carries_exact_arguments() {
    let mut app = fresh_app();
    app.set_companies(vec![acme()]);
    app.selected_topics.push("Budget Review".to_string());
    app.total_files = 30;
    app.percent_attachments = 45;
    let g = app.start_generation().expect("launch expected");
    assert_eq!(g.launch.kind, JobKind::Generation);
    assert_eq!(g.launch.program, "python3".to_string());
    let expected: Vec<String> = [
        "generate_emails.py",
        "--files",
        "30",
        "--attachments",
        "45",
        "--roster",
        "roster.json",
        "--provider",
        "gemini",
        "--model",
        "gemini-2.5-flash",
        "--reply-pct",
        "80",
        "--forward-pct",
        "10",
        "--topic",
        "Budget Review",
    ]
    .iter()
    .map(|s| s.to_string())
    .collect();
    assert_eq!(g.launch.args, expected);
    let env = g.launch.env.expect("env expected");
    assert_eq!(env.name, "GEMINI_API_KEY".to_string());
    assert_eq!(env.value, "gem-key".to_string());
    assert_eq!(g.roster.company_name, "Acme Innovations".to_string());
    assert_eq!(g.roster.employees.len(), 3);
}

#[test]
fn blank_topic_stays_off_the_command_line() {
    let mut app = fresh_app();
    app.set_companies(vec![acme()]);
    let g = app.start_generation().expect("launch expected");
    assert!(!g.launch.args.contains(&"--topic".to_string()));
    assert_eq!(g.launch.args.len(), 15);
}

#[test]
fn openrouter_launch_uses_its_key_and_name() {
    let mut app = fresh_app();
    app.toggle_provider();
    app.set_companies(vec![acme()]);
    let g = app.start_generation().expect("launch expected");
    let args = g.launch.args;
    let provider_at = args.iter().position(|a| a == "--provider").unwrap();
    assert_eq!(args[provider_at + 1], "openrouter".to_string());
    let model_at = args.iter().position(|a| a == "--model").unwrap();
    assert_eq!(args[model_at + 1], "moonshotai/kimi-k2".to_string());
    let env = g.launch.env.expect("env expected");
    assert_eq!(env.name, "OPENROUTER_API_KEY".to_string());
    assert_eq!(env.value, "or-key".to_string());
}

#[test]
fn conversion_launch_builds_folder_path() {
    let mut app = fresh_app();
    app.set_convert_subfolders(vec!["docs".to_string()]);
    let l = app.start_conversion().expect("launch expected");
    assert_eq!(l.kind, JobKind::Conversion);
    assert_eq!(l.program, "python3".to_string());
    assert_eq!(
        l.args,
        vec![
            "convert_to_pdf.py".to_string(),
            "--folder".to_string(),
            "output/docs".to_string(),
        ]
    );
    assert!(l.env.is_none());
    assert!(app.is_converting);
    assert_eq!(
        app.logs.lines.last(),
        Some(&"Starting PDF conversion for docs...".to_string())
    );
}

#[test]
fn conversion_combine_flag_is_appended() {
    let mut app = fresh_app();
    app.set_convert_subfolders(vec!["docs".to_string()]);
    app.convert_combine = true;
    let l = app.start_conversion().expect("launch expected");
    assert_eq!(l.args.last(), Some(&"--combine".to_string()));
    assert_eq!(l.args.len(), 4);
}

#[test]
fn conversion_refused_without_folders_or_while_busy() {
    let mut app = fresh_app();
    assert!(app.start_conversion().is_none());
    assert_eq!(app.logs.lines.last(), Some(&"No subfolders to convert!".to_string()));
    app.set_convert_subfolders(vec!["docs".to_string()]);
    app.is_converting = true;
    assert!(app.start_conversion().is_none());
    assert_eq!(app.logs.lines.last(), Some(&"Already converting!".to_string()));
}

#[test]
fn bates_launch_renders_numbers_and_separator() {
    let mut app = fresh_app();
    app.set_bates_pdfs(vec!["run1_combined.pdf".to_string()]);
    app.bates_separator_index = 1;
    app.bates_start = 7;
    app.bates_padding = 3;
    let l = app.start_bates_stamp().expect("launch expected");
    assert_eq!(l.kind, JobKind::Stamping);
    let expected: Vec<String> = [
        "bates_stamp.py",
        "--file",
        "output/run1_combined.pdf",
        "--prefix",
        "BATES",
        "--separator",
        "_",
        "--start",
        "7",
        "--padding",
        "3",
    ]
    .iter()
    .map(|s| s.to_string())
    .collect();
    assert_eq!(l.args, expected);
    assert!(app.is_stamping);
    assert_eq!(
        app.logs.lines.last(),
        Some(&"Starting Bates stamping on run1_combined.pdf...".to_string())
    );
}

#[test]
fn bates_refused_without_files_or_while_busy() {
    let mut app = fresh_app();
    assert!(app.start_bates_stamp().is_none());
    assert_eq!(
        app.logs.lines.last(),
        Some(&"No combined PDF files found for Bates stamping!".to_string())
    );
    app.set_bates_pdfs(vec!["a_combined.pdf".to_string()]);
    app.is_stamping = true;
    assert!(app.start_bates_stamp().is_none());
    assert_eq!(app.logs.lines.last(), Some(&"Already stamping!".to_string()));
}

#[test]
fn activation_routes_to_the_armed_button_only() {
    let mut app = fresh_app();
    app.sidebar_index = 6;
    app.current_section = Section::Convert;
    app.focus = Focus::Main;
    app.set_convert_subfolders(vec!["docs".to_string()]);
    let eff = app.handle_event(InputEvent::Activate);
    assert!(matches!(eff, Effect::Nothing));
    assert!(!app.is_converting);
    app.convert_active_area = 2;
    let eff = app.handle_event(InputEvent::Activate);
    assert!(matches!(eff, Effect::Launch(_)));
    assert!(app.is_converting);
}

#[test]
fn run_section_launches_generation_on_activate() {
    let mut app = fresh_app();
    app.sidebar_index = 5;
    app.current_section = Section::Run;
    app.focus = Focus::Main;
    app.set_companies(vec![acme()]);
    let eff = app.handle_event(InputEvent::Activate);
    assert!(matches!(eff, Effect::LaunchGeneration(_)));
    assert!(app.is_generating);
    let eff2 = app.handle_event(InputEvent::SecondaryActivate);
    assert!(matches!(eff2, Effect::Nothing));
    assert_eq!(app.logs.lines.last(), Some(&"Already generating!".to_string()));
}

#[test]
fn companies_section_requests_generation_of_rosters() {
    let mut app = fresh_app();
    app.sidebar_index = 3;
    app.current_section = Section::Companies;
    app.focus = Focus::Main;
    let eff = app.handle_event(InputEvent::Activate);
    assert!(matches!(eff, Effect::GenerateCompanies));
}

#[test]
fn preview_prompt_reflects_state() {
    let mut app = fresh_app();
    let lines = app.build_preview_prompt();
    assert_eq!(lines.len(), 43);
    assert_eq!(lines[4], "  Reply:     80%  (continue thread with reply)".to_string());
    assert_eq!(lines[5], "  Forward:   10%  (forward to new recipients)".to_string());
    assert_eq!(lines[6], "  Terminate: 10%  (end the chain)".to_string());
    assert_eq!(lines[15], "Sender: John Smith (Manager in Engineering)".to_string());
    assert_eq!(lines[16], "Recipients: Jane Doe, Bob Wilson".to_string());
    assert_eq!(lines[17], "Topic: General check-in".to_string());
    assert_eq!(lines[40], "Provider: Gemini".to_string());
    assert_eq!(lines[41], "Model: gemini-2.5-flash".to_string());
    assert_eq!(lines[42], "API Key: configured".to_string());
    app.api_key = String::new();
    app.set_companies(vec![acme()]);
    app.selected_topics.push("Budget Review".to_string());
    app.reply_percent = 70;
    app.forward_percent = 20;
    let lines = app.build_preview_prompt();
    assert_eq!(lines[6], "  Terminate: 10%  (end the chain)".to_string());
    assert_eq!(lines[15], "Sender: Ada Smith (Director in Engineering)".to_string());
    assert_eq!(lines[16], "Recipients: Ben Jones, Cleo Park".to_string());
    assert_eq!(lines[17], "Topic: Budget Review".to_string());
    assert_eq!(lines[42], "API Key: NOT SET".to_string());
}
