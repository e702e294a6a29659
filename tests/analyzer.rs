use iced_tutorial::{find_title, full_url, size_line, size_report, title_line, title_report, Mode, UrlAnalyzer};

#[test]
fn full_url_adds_scheme() {
    assert_eq!(full_url("example.com", false), "http://example.com");
    assert_eq!(full_url("example.com", true), "https://example.com");
    assert_eq!(full_url("http://a.b", true), "http://a.b");
    assert_eq!(full_url("https://a.b", false), "https://a.b");
    assert_eq!(full_url("", true), "https://");
    assert_eq!(full_url("httpx://a", false), "http://httpx://a");
}

#[test]
fn title_report_trims_the_title() {
    let body = "<html><head><title>  Example Domain \n</title></head></html>";
    assert_eq!(find_title(body), Some("  Example Domain \n"));
    assert_eq!(title_report(body), "Title: Example Domain");
}

#[test]
fn title_report_without_title() {
    assert_eq!(title_report("<html></html>"), "No <title> found");
    assert_eq!(title_report("<title>open only"), "No <title> found");
    assert_eq!(title_report("</title> then <title>x"), "No <title> found");
    assert_eq!(find_title(""), None);
}

#[test]
fn title_report_empty_and_unicode_titles() {
    assert_eq!(title_report("<title></title>"), "Title: ");
    assert_eq!(title_report("é<title>Grüße</title>"), "Title: Grüße");
}

#[test]
fn report_lines() {
    assert_eq!(title_line("x"), "Title: x");
    assert_eq!(size_line("3 kB"), "Size: 3 kB");
}

#[test]
fn size_report_in_si_units() {
    assert_eq!(size_report(1_000_000), "Size: 1 MB");
    assert_eq!(size_report(500), "Size: 500 B");
    assert_eq!(size_report(1_500), "Size: 1.50 kB");
}

#[test]
fn mode_labels() {
    assert_eq!(Mode::Title.label(), "Title");
    assert_eq!(Mode::DownloadTime.label(), "Download Time");
    assert_eq!(Mode::DownloadSize.label(), "Download Size");
    assert_eq!(Mode::all(), vec![Mode::Title, Mode::DownloadTime, Mode::DownloadSize]);
}

#[test]
fn analyzer_status_text() {
    let mut a = UrlAnalyzer::default();
    assert_eq!(a.url, "");
    assert!(!a.secure);
    assert_eq!(a.mode, Mode::Title);
    assert_eq!(a.status(), "Enter a URL and click Get");
    a.result = String::from("Title: x");
    assert_eq!(a.status(), "Title: x");
    a.loading = true;
    assert_eq!(a.status(), "Fetching...");
}
