use gotenberg::{Error, Html};

#[test]
fn convert_posts_to_the_html_endpoint() {
    let html = Html::new(reqwest::Client::new(), "http://localhost:3000".to_string());
    let (_client, request) = html.convert().unwrap();
    assert_eq!(request.method(), &reqwest::Method::POST);
    assert_eq!(request.url().as_str(), "http://localhost:3000/convert/html");
}

#[test]
fn convert_sends_a_multipart_body() {
    let html = Html::new(reqwest::Client::new(), "http://localhost:3000/".to_string())
        .pages("1-3".to_string())
        .file("index.html".to_string(), reqwest::Body::from("<html></html>"))
        .file("style.css".to_string(), reqwest::Body::from(vec![b'a'; 4]));
    let (_client, request) = html.convert().unwrap();
    assert_eq!(request.url().as_str(), "http://localhost:3000/convert/html");
    let content_type = request.headers().get("content-type").unwrap().to_str().unwrap();
    assert!(content_type.starts_with("multipart/form-data; boundary="));
    assert!(request.body().is_some());
}

#[test]
fn file_accepts_any_file_name() {
    let html = Html::new(reqwest::Client::new(), "http://localhost:3000".to_string());
    let html = html.file("weird name ü.html".to_string(), reqwest::Body::from("x"));
    let (_client, request) = html.convert().unwrap();
    assert!(request.body().is_some());
}

#[test]
fn convert_refuses_an_unparsable_url() {
    let html = Html::new(reqwest::Client::new(), "not a url".to_string()).pages("1".to_string());
    assert!(matches!(html.convert(), Err(Error::Http(_))));
}

#[test]
fn convert_refuses_a_url_without_host() {
    let html = Html::new(reqwest::Client::new(), "mailto:someone".to_string());
    assert!(matches!(html.convert(), Err(Error::Http(_))));
}

#[test]
fn convert_of_a_new_builder_posts_an_empty_form() {
    let html = Html::new(reqwest::Client::new(), "http://localhost:3000".to_string());
    let (_client, request) = html.convert().unwrap();
    assert_eq!(request.method(), &reqwest::Method::POST);
    assert_eq!(request.url().as_str(), "http://localhost:3000/convert/html");
    let content_type = request.headers().get("content-type").unwrap().to_str().unwrap();
    assert!(content_type.starts_with("multipart/form-data; boundary="));
}
