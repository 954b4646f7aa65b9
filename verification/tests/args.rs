use bili_cli::args::{
    choose_ep_value, format_kind, format_needs_choice, format_v, format_value, init_app,
    qr_console_value, resume_download_value, ss_value, subcommand, url_value, Args, Command,
    Format, FORMAT_HELP,
};

fn down(format: &str, url: &str) -> Command {
    Command::Down {
        format: format.to_string(),
        url: url.to_string(),
        ss: true,
        choose_ep: false,
        resume_download: true,
    }
}

#[test]
fn known_formats_are_accepted() {
    assert_eq!(format_v("mp4"), Ok("mp4".to_string()));
    assert_eq!(format_v("dash"), Ok("dash".to_string()));
    assert_eq!(format_v("choose"), Ok("choose".to_string()));
}

#[test]
fn unknown_formats_are_refused_with_the_help_text() {
    assert_eq!(format_v("flv"), Err(FORMAT_HELP.to_string()));
    assert_eq!(format_v(""), Err(FORMAT_HELP.to_string()));
    assert_eq!(format_v("MP4"), Err("视频格式 只能为 mp4/dash/choose 其中之一".to_string()));
}

#[test]
fn settings_are_made_from_a_valid_command() {
    let made = init_app(Some(down("dash", "u")));
    assert_eq!(made, Ok(Args { command: Some(down("dash", "u")) }));
    assert_eq!(init_app(None), Ok(Args { command: None }));
    assert_eq!(init_app(Some(Command::User)), Ok(Args { command: Some(Command::User) }));
}

#[test]
fn settings_refuse_an_unknown_format() {
    assert_eq!(init_app(Some(down("webm", "u"))), Err(FORMAT_HELP.to_string()));
}

#[test]
fn subcommand_is_named() {
    assert_eq!(subcommand(&Args { command: None }), None);
    assert_eq!(subcommand(&Args { command: Some(Command::User) }), Some("user".to_string()));
    assert_eq!(
        subcommand(&Args { command: Some(Command::Login { console_qrcode: false }) }),
        Some("login".to_string())
    );
    assert_eq!(subcommand(&Args { command: Some(down("mp4", "")) }), Some("down".to_string()));
}

#[test]
fn flags_are_read_from_the_settings() {
    let args = Args { command: Some(down("mp4", "https://example.com")) };
    assert!(ss_value(&args));
    assert!(!choose_ep_value(&args));
    assert!(resume_download_value(&args));
    let other = Args {
        command: Some(Command::Down {
            format: "dash".to_string(),
            url: String::new(),
            ss: false,
            choose_ep: true,
            resume_download: false,
        }),
    };
    assert!(!ss_value(&other));
    assert!(choose_ep_value(&other));
    assert!(!resume_download_value(&other));
    assert!(qr_console_value(&Args { command: Some(Command::Login { console_qrcode: true }) }));
    assert!(!qr_console_value(&Args { command: Some(Command::Login { console_qrcode: false }) }));
}

#[test]
fn missing_url_has_to_be_asked_for() {
    assert_eq!(url_value(&Args { command: Some(down("mp4", "")) }), None);
    assert_eq!(
        url_value(&Args { command: Some(down("mp4", "https://b23.tv/x")) }),
        Some("https://b23.tv/x".to_string())
    );
}

#[test]
fn format_is_chosen_only_where_asked() {
    let fixed = Args { command: Some(down("mp4", "")) };
    assert!(!format_needs_choice(&fixed));
    assert_eq!(format_value(&fixed, 0), "mp4");
    assert_eq!(format_value(&fixed, 1), "mp4");
    let open = Args { command: Some(down("choose", "")) };
    assert!(format_needs_choice(&open));
    assert_eq!(format_value(&open, 0), "dash");
    assert_eq!(format_value(&open, 1), "mp4");
}

#[test]
fn format_text_names_a_layout() {
    assert_eq!(format_kind("mp4"), Some(Format::Mp4));
    assert_eq!(format_kind("dash"), Some(Format::Dash));
    assert_eq!(format_kind("choose"), None);
    assert_eq!(format_kind(""), None);
}
