use sinapis::response::ErrorCodeType;
use sinapis::response::ErrorShowType;
use sinapis::response::ListData;
use sinapis::response::PageParams;
use sinapis::response::Res;

#[test]
fn an_answer_with_data() {
    let res = Res::with_data(vec![1, 2, 3]);
    assert_eq!(res.data, Some(vec![1, 2, 3]));
    assert!(res.success);
    assert_eq!(res.error_message.as_deref(), Some("success"));
    assert_eq!(res.error_code, Some(0));
    assert_eq!(res.show_type, 3);
}

#[test]
fn an_answer_with_an_error() {
    let res: Res<u8> = Res::with_err("no such user", ErrorShowType::ErrorMessage);
    assert_eq!(res.data, None);
    assert!(!res.success);
    assert_eq!(res.error_message.as_deref(), Some("no such user"));
    assert_eq!(res.error_code, Some(-1));
    assert_eq!(res.show_type, 2);
    let res: Res<u8> = Res::with_err("", ErrorShowType::Redirect);
    assert_eq!(res.show_type, 9);
    assert_eq!(res.error_message.as_deref(), Some(""));
}

#[test]
fn an_answer_with_every_part() {
    let res = Res::with_msg(
        Some("d"),
        "done",
        true,
        Some(ErrorShowType::WarnMessage),
        Some(ErrorCodeType::Success),
    );
    assert_eq!(res.data, Some("d"));
    assert!(res.success);
    assert_eq!(res.error_message.as_deref(), Some("done"));
    assert_eq!(res.error_code, Some(0));
    assert_eq!(res.show_type, 1);
    let res: Res<u8> = Res::with_msg(None, "failed", false, None, Some(ErrorCodeType::Fail));
    assert_eq!(res.data, None);
    assert!(!res.success);
    assert_eq!(res.error_code, Some(-1));
    assert_eq!(res.show_type, 0);
    let res: Res<u8> = Res::with_msg(Some(1), "m", false, Some(ErrorShowType::Notification), None);
    assert_eq!(res.error_code, None);
    assert_eq!(res.show_type, 3);
    assert_eq!(res.data, Some(1));
}

#[test]
fn the_numbers_of_the_ways_of_showing() {
    assert_eq!(Res::<()>::show_type_number(ErrorShowType::Silent), 0);
    assert_eq!(Res::<()>::show_type_number(ErrorShowType::WarnMessage), 1);
    assert_eq!(Res::<()>::show_type_number(ErrorShowType::ErrorMessage), 2);
    assert_eq!(Res::<()>::show_type_number(ErrorShowType::Notification), 3);
    assert_eq!(Res::<()>::show_type_number(ErrorShowType::Redirect), 9);
    assert_eq!(Res::<()>::error_code_number(ErrorCodeType::Success), 0);
    assert_eq!(Res::<()>::error_code_number(ErrorCodeType::Fail), -1);
}

#[test]
fn defaults() {
    let res: Res<String> = Res::default();
    assert_eq!(res.data, None);
    assert!(!res.success);
    assert_eq!(res.error_message, None);
    assert_eq!(res.error_code, None);
    assert_eq!(res.show_type, 0);
    let page = PageParams::default();
    assert_eq!(page.current, None);
    assert_eq!(page.page_size, None);
    let list = ListData { list: vec![1u8], total: 1, total_pages: 1, page_num: 1 };
    assert_eq!(list.list.len() as u64, list.total);
}
