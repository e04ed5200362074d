use reddit_save_bot::api::telegram::{TelegramAPI, VideoUpload};

#[test]
fn message_request_names_chat_and_text() {
    let api = TelegramAPI::new("TOKEN".to_string());
    assert_eq!(
        api.send_message(42, "Hello!".to_string()),
        "https://api.telegram.org/botTOKEN/sendMessage?chat_id=42&text=Hello!"
    );
}

#[test]
fn message_request_keeps_the_text_as_it_is() {
    let api = TelegramAPI::new("1:a".to_string());
    assert_eq!(
        api.send_message(-100123, "Please send a valid URL".to_string()),
        "https://api.telegram.org/bot1:a/sendMessage?chat_id=-100123&text=Please send a valid URL"
    );
}

#[test]
fn video_request_is_a_form_with_one_mp4_part() {
    let api = TelegramAPI::new("TOKEN".to_string());
    let upload = api.send_video(42, "/tmp/abc.mp4".to_string());
    assert_eq!(
        upload,
        VideoUpload {
            url: "https://api.telegram.org/botTOKEN/sendVideo?chat_id=42".to_string(),
            field: "video".to_string(),
            file_name: "/tmp/abc.mp4".to_string(),
            mime: "video/mp4".to_string(),
        }
    );
}

#[test]
fn success_codes_report_nothing() {
    assert_eq!(TelegramAPI::check_response(200, "200 OK"), Ok(()));
    assert_eq!(TelegramAPI::check_response(204, "204 No Content"), Ok(()));
    assert_eq!(TelegramAPI::check_response(299, "299 <unknown status code>"), Ok(()));
}

#[test]
fn other_codes_report_a_failure() {
    assert_eq!(
        TelegramAPI::check_response(199, "199 <unknown status code>"),
        Err("Failed to send message: 199 <unknown status code>".to_string())
    );
    assert_eq!(
        TelegramAPI::check_response(300, "300 Multiple Choices"),
        Err("Failed to send message: 300 Multiple Choices".to_string())
    );
    assert_eq!(
        TelegramAPI::check_response(404, "404 Not Found"),
        Err("Failed to send message: 404 Not Found".to_string())
    );
    assert_eq!(
        TelegramAPI::check_response(500, "500 Internal Server Error"),
        Err("Failed to send message: 500 Internal Server Error".to_string())
    );
}
