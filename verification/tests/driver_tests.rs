use news_reader::driver::DriverStep;
use news_reader::driver::MenuOutcome;
use news_reader::errors::NewsError;
use news_reader::registry::Registry;

#[test]
fn cancelling_the_menu_never_fetches() {
    let reg = Registry::default_sources();
    match reg.decide_after_menu(MenuOutcome::Cancelled) {
        DriverStep::CancelExit => {}
        DriverStep::Fetch(url) => panic!("cancellation must not fetch {url}"),
        DriverStep::Fail(e) => panic!("cancellation must not fail: {}", e.describe()),
    }
}

#[test]
fn selecting_a_source_fetches_its_configured_url() {
    let reg = Registry::default_sources();
    match reg.decide_after_menu(MenuOutcome::Selected("TVR".to_string())) {
        DriverStep::Fetch(url) => assert_eq!(url, "http://stiri.tvr.ro/rss/stiri.xml"),
        _ => panic!("a known source must be fetched"),
    }
    match reg.decide_after_menu(MenuOutcome::Selected("MediaFax".to_string())) {
        DriverStep::Fetch(url) => assert_eq!(url, "https://www.mediafax.ro/rss"),
        _ => panic!("a known source must be fetched"),
    }
}

#[test]
fn selecting_an_unknown_name_fails_the_lookup() {
    let reg = Registry::default_sources();
    match reg.decide_after_menu(MenuOutcome::Selected("None".to_string())) {
        DriverStep::Fail(e) => assert_eq!(e, NewsError::RegistryLookupError),
        _ => panic!("an unknown name must fail the registry lookup"),
    }
}
