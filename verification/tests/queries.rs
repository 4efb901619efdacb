use scr::ItemNum;
use scr::Scraper;
use scr::ScrapingErrorKind;
use scr::ScrapingHttpErrorKind;

fn shop_page() -> String {
    let mut page = String::new();
    page.push_str("<!DOCTYPE html><html><head><title>Products</title></head><body>");
    page.push_str("<main id=\"main\" class=\"site-main\"><ul class=\"products\">");
    page.push_str("<li class=\"product\"><a href=\"/shop/bulbasaur\">");
    page.push_str("<h2>Bulbasaur</h2><span class=\"price\">63.00</span></a></li>");
    page.push_str("<li class=\"product\"><a href=\"/shop/ivysaur\">");
    page.push_str("<h2>Ivysaur</h2><span class=\"price\">87.00</span></a></li>");
    page.push_str("<li class=\"product\"><a href=\"/shop/venusaur\">");
    page.push_str("<h2>Venusaur</h2><span class=\"price\">105.00</span></a></li>");
    page.push_str("</ul></main></body></html>");
    page
}

#[test]
fn fragment_round_trip() {
    let scraper = Scraper::from_fragment("<a>Bulbasaur</a>");
    let matches = scraper.get_els("a").unwrap();
    assert_eq!(matches.len(), 1);
    assert_eq!(scraper.get_text_once("a").unwrap(), "Bulbasaur");
}

#[test]
fn fragment_accepts_any_input() {
    let scraper = Scraper::from_fragment("<<not <markup> at all");
    assert!(scraper.get_els("a").unwrap().is_empty());
    let scraper = Scraper::from_fragment("");
    assert!(scraper.get_els("p").unwrap().is_empty());
}

#[test]
fn response_body_becomes_document() {
    let r = Scraper::from_response(Some(String::from("<p>hello</p>")));
    let scraper = r.unwrap();
    assert_eq!(scraper.get_text_once("p").unwrap(), "hello");
}

#[test]
fn failed_fetch_is_transport_error() {
    let r = Scraper::from_response(None);
    assert_eq!(r.unwrap_err(), ScrapingHttpErrorKind::GettingDataError);
}

#[test]
fn first_product_heading() {
    let scraper = Scraper::from_document(&shop_page());
    let element = scraper.get_el("main#main>ul>li.product>a>h2").unwrap();
    assert_eq!(element.inner_html(), "Bulbasaur");
    assert_eq!(
        scraper.get_text_once("main#main>ul>li.product>a>h2").unwrap(),
        "Bulbasaur"
    );
}

#[test]
fn first_product_price_class() {
    let scraper = Scraper::from_document(&shop_page());
    assert_eq!(
        scraper
            .get_attr_once("main#main>ul>li.product>a>span", "class")
            .unwrap(),
        "price"
    );
}

#[test]
fn element_attribute_lookup() {
    let scraper = Scraper::from_document(&shop_page());
    let span = scraper.get_el("main#main>ul>li.product>a>span").unwrap();
    assert_eq!(span.attr("class"), Some(String::from("price")));
    assert_eq!(span.attr("href"), None);
}

#[test]
fn all_matches_in_document_order() {
    let scraper = Scraper::from_document(&shop_page());
    let texts = scraper.get_all_text("main#main>ul>li.product>a>h2").unwrap();
    assert_eq!(texts, vec!["Bulbasaur", "Ivysaur", "Venusaur"]);
}

#[test]
fn single_result_is_first_of_all() {
    let scraper = Scraper::from_document(&shop_page());
    let all = scraper.get_els("li.product").unwrap();
    let one = scraper.get_el("li.product").unwrap();
    assert_eq!(one.inner_html(), all[0].inner_html());
}

#[test]
fn get_text_once_and_all() {
    let scraper = Scraper::from_document(&shop_page());
    assert_eq!(
        scraper
            .get_text("main#main>ul>li.product>a>h2", ItemNum::Once)
            .unwrap(),
        vec!["Bulbasaur"]
    );
    assert_eq!(
        scraper
            .get_text("main#main>ul>li.product>a>h2", ItemNum::All)
            .unwrap(),
        vec!["Bulbasaur", "Ivysaur", "Venusaur"]
    );
}

#[test]
fn get_attr_once_and_all() {
    let scraper = Scraper::from_document(&shop_page());
    assert_eq!(
        scraper
            .get_attr("main#main>ul>li.product>a>span", "class", ItemNum::Once)
            .unwrap(),
        vec!["price"]
    );
    assert_eq!(
        scraper
            .get_attr("main#main>ul>li.product>a>span", "class", ItemNum::All)
            .unwrap(),
        vec!["price", "price", "price"]
    );
}

#[test]
fn all_attr_values_in_document_order() {
    let scraper = Scraper::from_document(&shop_page());
    let hrefs = scraper.get_all_attr("main#main>ul>li.product>a", "href").unwrap();
    assert_eq!(hrefs, vec!["/shop/bulbasaur", "/shop/ivysaur", "/shop/venusaur"]);
}

#[test]
fn missing_attribute_on_single_result() {
    let scraper = Scraper::from_document(&shop_page());
    assert_eq!(
        scraper
            .get_attr_once("main#main>ul>li.product>a>h2", "class")
            .unwrap_err(),
        ScrapingErrorKind::NotFound
    );
}

#[test]
fn missing_attribute_fails_whole_batch() {
    let scraper = Scraper::from_document(&shop_page());
    // every matched anchor lacks a class attribute
    assert_eq!(
        scraper
            .get_all_attr("main#main>ul>li.product>a", "class")
            .unwrap_err(),
        ScrapingErrorKind::NotFound
    );
}

#[test]
fn unbalanced_bracket_selector_is_invalid() {
    // an unclosed bracket alone is repaired by CSS forgiving parsing, so the
    // dangling `=` is what makes these selectors unparseable
    let scraper = Scraper::from_document(&shop_page());
    assert_eq!(
        scraper.get_els("li[").unwrap_err(),
        ScrapingErrorKind::InvalidSelector
    );
    assert_eq!(
        scraper.get_els("li[class=").unwrap_err(),
        ScrapingErrorKind::InvalidSelector
    );
    assert_eq!(
        scraper.get_el("li[class=").unwrap_err(),
        ScrapingErrorKind::InvalidSelector
    );
    assert_eq!(
        scraper.get_text_once("li[class=").unwrap_err(),
        ScrapingErrorKind::InvalidSelector
    );
    assert_eq!(
        scraper.get_attr_once("li[class=", "class").unwrap_err(),
        ScrapingErrorKind::InvalidSelector
    );
    assert_eq!(
        scraper.get_all_attr("li[class=", "class").unwrap_err(),
        ScrapingErrorKind::InvalidSelector
    );
    assert_eq!(
        scraper.get_text("li[class=", ItemNum::All).unwrap_err(),
        ScrapingErrorKind::InvalidSelector
    );
    assert_eq!(
        scraper.get_attr("li[class=", "class", ItemNum::Once).unwrap_err(),
        ScrapingErrorKind::InvalidSelector
    );
    let scraper = Scraper::from_fragment("<a>anything</a>");
    assert_eq!(
        scraper.get_els("li[class=").unwrap_err(),
        ScrapingErrorKind::InvalidSelector
    );
    let consumed = Scraper::from_document(&shop_page());
    assert_eq!(
        consumed.get_all_text("li[class=").unwrap_err(),
        ScrapingErrorKind::InvalidSelector
    );
}

#[test]
fn valid_selector_without_matches() {
    let scraper = Scraper::from_document(&shop_page());
    assert!(scraper.get_els("li.nonexistent-class").unwrap().is_empty());
    assert_eq!(
        scraper.get_el("li.nonexistent-class").unwrap_err(),
        ScrapingErrorKind::NotFound
    );
    assert_eq!(
        scraper.get_text_once("li.nonexistent-class").unwrap_err(),
        ScrapingErrorKind::NotFound
    );
    let consumed = Scraper::from_document(&shop_page());
    let empty: Vec<String> = Vec::new();
    assert_eq!(consumed.get_all_text("li.nonexistent-class").unwrap(), empty);
}

#[test]
fn nested_markup_is_preserved_in_inner_html() {
    let scraper = Scraper::from_fragment("<div><b>bold</b> and plain</div>");
    assert_eq!(
        scraper.get_text_once("div").unwrap(),
        "<b>bold</b> and plain"
    );
}

#[test]
fn free_from_fragment_way() {
    let scraper = scr::scraping::ways::from_fragment("<a>Bulbasaur</a>");
    assert_eq!(scraper.get_text_once("a").unwrap(), "Bulbasaur");
}
