use tail_server_url::digits::to_decimal;
use tail_server_url::template::fill_template;
use tail_server_url::{TailServerUrl, TailServerUrlIter};

fn drain(mut it: TailServerUrlIter) -> Vec<String> {
    let mut out = Vec::new();
    while let Some(u) = it.next() {
        out.push(u);
    }
    out
}

#[test]
fn osm_url_at_zoom_17() {
    assert_eq!(
        "https://tile.openstreetmap.org/17/67400/43241.png".to_string(),
        TailServerUrl::new_openstreetmap(17).url(67400, 43241)
    );
}

#[test]
fn osm_url_at_zoom_10() {
    assert_eq!(
        "https://tile.openstreetmap.org/10/526/337.png",
        TailServerUrl::new_openstreetmap(10).url(526, 337)
    );
}

#[test]
fn custom_template_repeated_and_missing_tokens() {
    let t = TailServerUrl::new("{x}-{x}/{z}", 3);
    assert_eq!("5-5/3", t.url(5, 7));
    let plain = TailServerUrl::new("https://example.org/tile.png", 3);
    assert_eq!("https://example.org/tile.png", plain.url(5, 7));
    let odd = TailServerUrl::new("{{x}}{y{z}}{X}", 12);
    assert_eq!("{4}{y12}{X}", odd.url(4, 9));
}

#[test]
fn template_order_does_not_matter() {
    let a = TailServerUrl::new("{z}/{y}/{x}", 0);
    assert_eq!("0/20/10", a.url(10, 20));
    let empty = TailServerUrl::new("", 5);
    assert_eq!("", empty.url(1, 2));
}

#[test]
fn decimal_rendering() {
    assert_eq!("0", to_decimal(0));
    assert_eq!("7", to_decimal(7));
    assert_eq!("10", to_decimal(10));
    assert_eq!("1234567890", to_decimal(1234567890));
    assert_eq!("18446744073709551615", to_decimal(u64::MAX));
}

#[test]
fn fill_template_directly() {
    assert_eq!("a1b2c3é", fill_template("a{x}b{y}c{z}é", "1", "2", "3"));
    assert_eq!("{x", fill_template("{x", "1", "2", "3"));
}

#[test]
fn box_at_zoom_8_is_four_by_four() {
    let it = TailServerUrlIter::new(TailServerUrl::new_openstreetmap(8), 130, 85, 133, 82);
    assert_eq!((4, 4), it.size());
    let urls = drain(it);
    assert_eq!(16, urls.len());
    assert_eq!("https://tile.openstreetmap.org/8/130/82.png", urls[0]);
    assert_eq!("https://tile.openstreetmap.org/8/133/82.png", urls[3]);
    assert_eq!("https://tile.openstreetmap.org/8/130/83.png", urls[4]);
    assert_eq!("https://tile.openstreetmap.org/8/133/85.png", urls[15]);
    let mut k = 0;
    for y in 82..=85u64 {
        for x in 130..=133u64 {
            assert_eq!(format!("https://tile.openstreetmap.org/8/{}/{}.png", x, y), urls[k]);
            k += 1;
        }
    }
}

#[test]
fn size_matches_number_of_urls() {
    let it = TailServerUrlIter::new(TailServerUrl::new("{x},{y}", 4), 2, 10, 4, 7);
    assert_eq!((3, 4), it.size());
    let (w, h) = it.size();
    let urls = drain(it);
    assert_eq!((w * h) as usize, urls.len());
    assert_eq!("2,7", urls[0]);
    assert_eq!("4,10", urls[11]);
}

#[test]
fn size_is_fixed_during_iteration() {
    let mut it = TailServerUrlIter::new(TailServerUrl::new("{x},{y}", 4), 0, 1, 1, 0);
    assert_eq!((2, 2), it.size());
    assert_eq!(Some("0,0".to_string()), it.next());
    assert_eq!((2, 2), it.size());
    assert_eq!(Some("1,0".to_string()), it.next());
    assert_eq!(Some("0,1".to_string()), it.next());
    assert_eq!(Some("1,1".to_string()), it.next());
    assert_eq!((2, 2), it.size());
    assert_eq!(None, it.next());
}

#[test]
fn single_cell_box() {
    let mut it = TailServerUrlIter::new(TailServerUrl::new_openstreetmap(3), 5, 5, 5, 5);
    assert_eq!((1, 1), it.size());
    assert_eq!(Some("https://tile.openstreetmap.org/3/5/5.png".to_string()), it.next());
    assert_eq!(None, it.next());
}

#[test]
fn exhausted_scan_stays_exhausted() {
    let mut it = TailServerUrlIter::new(TailServerUrl::new("{x}/{y}", 1), 0, 1, 1, 1);
    assert_eq!(Some("0/1".to_string()), it.next());
    assert_eq!(Some("1/1".to_string()), it.next());
    for _ in 0..5 {
        assert_eq!(None, it.next());
    }
    assert_eq!((2, 1), it.size());
}

#[test]
fn corners_in_either_order_give_the_same_scan() {
    let t = TailServerUrl::new_openstreetmap(8);
    let a = TailServerUrlIter::new(t.clone(), 130, 85, 133, 82);
    let b = TailServerUrlIter::new(t.clone(), 133, 82, 130, 85);
    assert_eq!(a.size(), b.size());
    assert_eq!(drain(a), drain(b));
}

#[test]
fn largest_tile_indices() {
    let mut it = TailServerUrlIter::new(TailServerUrl::new("{x}/{y}", 64), u64::MAX - 1, u64::MAX, u64::MAX, u64::MAX);
    assert_eq!((2, 1), it.size());
    assert_eq!(Some("18446744073709551614/18446744073709551615".to_string()), it.next());
    assert_eq!(Some("18446744073709551615/18446744073709551615".to_string()), it.next());
    assert_eq!(None, it.next());
    assert_eq!(None, it.next());
}
