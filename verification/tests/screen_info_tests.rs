use bilibili_ticket::screen_info::{
    base_info_lines, choose_ticket, describe_local_time, find_ticket_index, finish_frame,
    format_timestamp, open_project_window, request_log_window, project_id_label, project_status_label,
    sale_status, screen_button_label, select_screen, selected_screen, ticket_action,
    BilibiliTicket, DescModule, InfoField, Myapp, PerformanceDesc, ProjectInfo, SaleFlag,
    SaleStatus, ScreenInfo, TicketAction, TicketInfo,
};
use chrono::TimeZone;

fn flag(name: &str) -> SaleFlag {
    SaleFlag { display_name: name.to_string() }
}

fn ticket(id: u64, clickable: bool, number: i64) -> TicketInfo {
    TicketInfo {
        id,
        project_id: 85939,
        desc: format!("票 {}", id),
        price: 38000,
        sale_flag: flag("在售"),
        sale_flag_number: number,
        clickable,
    }
}

fn screen(id: u64, tickets: Vec<TicketInfo>) -> ScreenInfo {
    ScreenInfo {
        id,
        name: format!("场次{}", id),
        sale_flag: flag("预售"),
        start_time: 1_700_000_000,
        sale_start: 1_690_000_000,
        sale_end: 0,
        ticket_list: tickets,
    }
}

fn field(title: Option<&str>, content: Option<&str>) -> InfoField {
    InfoField {
        title: title.map(|s| s.to_string()),
        content: content.map(|s| s.to_string()),
    }
}

fn project(screens: Vec<ScreenInfo>) -> ProjectInfo {
    ProjectInfo {
        id: 85939,
        name: "演唱会".to_string(),
        sale_flag: "在售".to_string(),
        id_bind: 2,
        screen_list: screens,
        performance_desc: None,
        raw_json: serde_json::from_str("{\"id\": 85939, \"name\": \"演唱会\"}").unwrap(),
    }
}

fn entry(uid: i64, project_info: Option<ProjectInfo>) -> BilibiliTicket {
    BilibiliTicket {
        uid,
        project_info,
        id_bind: 0,
        screen_id: String::new(),
        select_ticket_id: None,
    }
}

fn app(entries: Vec<BilibiliTicket>) -> Myapp {
    Myapp {
        bilibiliticket_list: entries,
        show_screen_info: Some(1),
        is_loading: false,
        selected_screen_index: None,
        selected_screen_id: None,
        selected_ticket_id: None,
        ticket_id: String::new(),
        confirm_ticket_info: None,
        show_log_window: false,
    }
}

#[test]
fn find_ticket_index_takes_first_match() {
    let a = app(vec![entry(7, None), entry(9, None), entry(9, None)]);
    assert_eq!(find_ticket_index(&a.bilibiliticket_list, 9), Some(1));
    assert_eq!(find_ticket_index(&a.bilibiliticket_list, 7), Some(0));
    assert_eq!(find_ticket_index(&a.bilibiliticket_list, 8), None);
}

#[test]
fn opening_without_project_reports_loading() {
    let mut a = app(vec![entry(7, None)]);
    assert!(!open_project_window(&mut a, 0));
    assert!(a.is_loading);
    assert_eq!(a.selected_screen_index, None);
    assert_eq!(a.show_screen_info, Some(1));
}

#[test]
fn opening_selects_first_screen_and_binds() {
    let mut a = app(vec![entry(7, Some(project(vec![screen(11, vec![]), screen(12, vec![])])))]);
    a.is_loading = true;
    assert!(open_project_window(&mut a, 0));
    assert!(!a.is_loading);
    assert_eq!(a.selected_screen_index, Some(0));
    assert_eq!(a.bilibiliticket_list[0].id_bind, 2);
    // a second frame changes nothing
    assert!(open_project_window(&mut a, 0));
    assert_eq!(a.selected_screen_index, Some(0));
    assert!(!a.is_loading);
}

#[test]
fn opening_keeps_existing_selection_and_empty_lists() {
    let mut a = app(vec![entry(7, Some(project(vec![screen(11, vec![]), screen(12, vec![])])))]);
    a.selected_screen_index = Some(1);
    assert!(open_project_window(&mut a, 0));
    assert_eq!(a.selected_screen_index, Some(1));

    let mut b = app(vec![entry(7, Some(project(vec![])))]);
    assert!(open_project_window(&mut b, 0));
    assert_eq!(b.selected_screen_index, None);
}

#[test]
fn screen_selection() {
    let p = project(vec![screen(11, vec![]), screen(12, vec![])]);
    let mut a = app(vec![entry(7, None)]);
    assert_eq!(selected_screen(&a, &p), None);
    select_screen(&mut a, 1);
    assert_eq!(a.selected_screen_index, Some(1));
    assert_eq!(selected_screen(&a, &p), Some(1));
    select_screen(&mut a, 5);
    assert_eq!(selected_screen(&a, &p), None);
}

#[test]
fn choosing_a_ticket_records_the_choice() {
    let p = project(vec![
        screen(11, vec![ticket(100, true, 2)]),
        screen(12, vec![ticket(200, true, 2), ticket(201, false, 1)]),
    ]);
    let mut a = app(vec![entry(5, None), entry(-42, Some(p))]);
    assert!(open_project_window(&mut a, 1));
    let on_sale = choose_ticket(&mut a, 1, 1, 1);
    assert!(!on_sale);
    assert_eq!(a.selected_screen_id, Some(12));
    assert_eq!(a.selected_ticket_id, Some(201));
    assert_eq!(a.show_screen_info, None);
    assert_eq!(a.ticket_id, "85939");
    assert_eq!(a.confirm_ticket_info.as_deref(), Some("-42"));
    assert_eq!(a.bilibiliticket_list[1].screen_id, "12");
    assert_eq!(a.bilibiliticket_list[1].select_ticket_id.as_deref(), Some("201"));
    assert!(a.bilibiliticket_list[1].project_info.is_some());
    assert_eq!(a.bilibiliticket_list[0].screen_id, "");

    assert!(choose_ticket(&mut a, 1, 0, 0));
    assert_eq!(a.selected_ticket_id, Some(100));
    assert_eq!(a.bilibiliticket_list[1].select_ticket_id.as_deref(), Some("100"));
}

#[test]
fn finishing_a_frame() {
    let p = project(vec![screen(11, vec![])]);
    let mut a = app(vec![entry(7, Some(p))]);
    finish_frame(&mut a, 0, true, false);
    assert_eq!(a.show_screen_info, Some(1));
    assert!(a.bilibiliticket_list[0].project_info.is_some());

    finish_frame(&mut a, 0, true, true);
    assert_eq!(a.show_screen_info, None);
    assert!(a.bilibiliticket_list[0].project_info.is_none());
    // the next frame only reports loading
    assert!(!open_project_window(&mut a, 0));
    assert!(a.is_loading);

    let mut b = app(vec![entry(7, Some(project(vec![])))]);
    finish_frame(&mut b, 0, false, false);
    assert_eq!(b.show_screen_info, None);
    assert!(b.bilibiliticket_list[0].project_info.is_none());
}

#[test]
fn sale_statuses() {
    assert_eq!(sale_status("在售"), SaleStatus::OnSale);
    assert_eq!(sale_status("预售"), SaleStatus::PreSale);
    assert_eq!(sale_status("售罄"), SaleStatus::SoldOut);
    assert_eq!(sale_status("不可售"), SaleStatus::Other);
    assert_eq!(sale_status(""), SaleStatus::Other);
}

#[test]
fn ticket_actions() {
    assert_eq!(ticket_action(&ticket(1, true, 1)), TicketAction::Select);
    assert_eq!(ticket_action(&ticket(1, false, 1)), TicketAction::ScheduledPreselect);
    assert_eq!(ticket_action(&ticket(1, false, 2)), TicketAction::Unavailable);
    assert_eq!(TicketAction::Select.label(), "选择");
    assert_eq!(TicketAction::ScheduledPreselect.label(), "定时预选");
    assert_eq!(TicketAction::Unavailable.label(), "不可选");
}

#[test]
fn labels() {
    let p = project(vec![screen(11, vec![])]);
    assert_eq!(project_status_label(&p), "状态: 在售");
    assert_eq!(project_id_label(&p), "项目ID: 85939");
    assert_eq!(screen_button_label(&p.screen_list[0]), "场次11 (预售)");
}

#[test]
fn base_info_lines_keep_complete_entries_of_base_info() {
    let mut p = project(vec![]);
    assert!(base_info_lines(&p).is_empty());
    p.performance_desc = Some(PerformanceDesc {
        list: vec![
            DescModule {
                module: "base_info".to_string(),
                details: Some(vec![
                    field(Some("演出时间"), Some("2025-01-01")),
                    field(Some("缺少内容"), None),
                    field(None, Some("缺少标题")),
                    field(Some("地点"), Some("上海")),
                ]),
            },
            DescModule {
                module: "notice".to_string(),
                details: Some(vec![field(Some("不显示"), Some("x"))]),
            },
            DescModule { module: "base_info".to_string(), details: None },
            DescModule {
                module: "base_info".to_string(),
                details: Some(vec![field(Some("入场"), Some("凭票"))]),
            },
        ],
    });
    let lines = base_info_lines(&p);
    assert_eq!(
        lines,
        vec![
            ("演出时间".to_string(), "2025-01-01".to_string()),
            ("地点".to_string(), "上海".to_string()),
            ("入场".to_string(), "凭票".to_string()),
        ]
    );
}

#[test]
fn timestamps() {
    assert_eq!(format_timestamp(0), "未设置");
    if usize::BITS == 64 {
        assert_eq!(format_timestamp(usize::MAX), "时间戳溢出");
        assert_eq!(format_timestamp((i64::MAX as usize) + 1), "时间戳溢出");
    }
    let expected = match chrono::Local.timestamp_opt(1_700_000_000, 0) {
        chrono::LocalResult::Single(t) => t.format("%Y-%m-%d %H:%M:%S").to_string(),
        _ => "无效时间".to_string(),
    };
    assert_eq!(format_timestamp(1_700_000_000), expected);
    assert_eq!(format_timestamp(1_700_000_000).len(), 19);
    assert_eq!(describe_local_time(None), "无效时间");
    assert_eq!(
        describe_local_time(Some((28800, "2024-01-01 00:00:00".to_string()))),
        "2024-01-01 00:00:00"
    );
}

#[test]
fn timestamps_at_the_edge_of_the_clock_range() {
    let last: i64 = 8210266876799;
    assert!(chrono::DateTime::from_timestamp(last, 0).is_some());
    assert!(chrono::DateTime::from_timestamp(last + 1, 0).is_none());
    let first: i64 = -8334601228800;
    assert!(chrono::DateTime::from_timestamp(first, 0).is_some());
    assert!(chrono::DateTime::from_timestamp(first - 1, 0).is_none());
    assert_eq!(format_timestamp((last + 1) as usize), "无效时间");
    assert_eq!(format_timestamp(i64::MAX as usize), "无效时间");
    let text = format_timestamp(last as usize);
    assert_ne!(text, "无效时间");
    let expected = chrono::Local
        .timestamp_opt(last, 0)
        .unwrap()
        .format("%Y-%m-%d %H:%M:%S")
        .to_string();
    assert_eq!(text, expected);
}

#[test]
fn requesting_the_log_window() {
    let mut a = app(vec![entry(7, None)]);
    request_log_window(&mut a);
    assert!(a.show_log_window);
    assert_eq!(a.show_screen_info, Some(1));
}
