use citation::reference::{OutputFormat, Part, Piece, Reference, ReferenceStyle};
use citation::routes::{format_reference, FormatRequest};

const STYLES: [ReferenceStyle; 6] = [
    ReferenceStyle::APA,
    ReferenceStyle::MLA,
    ReferenceStyle::Chicago,
    ReferenceStyle::Harvard,
    ReferenceStyle::Vancouver,
    ReferenceStyle::IEEE,
];

fn create_sample_reference() -> Reference {
    Reference {
        authors: vec!["Smith, John".to_string(), "Doe, Jane".to_string()],
        year: Some(2023),
        title: "A Study of Reference Styles".to_string(),
        container: Some("Journal of Citation Studies".to_string()),
        volume: Some(5),
        issue: Some(2),
        pages: Some("123-145".to_string()),
        doi: Some("10.1234/jcs.2023.01".to_string()),
        ..Default::default()
    }
}

fn title_only(title: &str) -> Reference {
    Reference {
        title: title.to_string(),
        ..Default::default()
    }
}

fn with_authors(names: &[&str]) -> Reference {
    Reference {
        authors: names.iter().map(|n| n.to_string()).collect(),
        title: "T".to_string(),
        ..Default::default()
    }
}

fn plain(pieces: &[Piece]) -> String {
    pieces.iter().map(|p| p.text.as_str()).collect()
}

fn count_text(pieces: &[Piece], t: &str) -> usize {
    pieces.iter().filter(|p| p.part == Part::Text && p.text == t).count()
}

#[test]
fn test_format_apa_html() {
    let reference = create_sample_reference();
    let formatted = reference.format(ReferenceStyle::APA, OutputFormat::HTML);

    println!("{}", formatted);
    assert_eq!(
        formatted,
        "<p class=\"apa-reference\"><span class=\"author\">Smith, John</span>, <span class=\"author\">Doe, Jane</span> (<span class=\"year\">2023</span>). <span class=\"title\">A Study of Reference Styles</span>. <span class=\"container\">Journal of Citation Studies</span> vol. <span class=\"volume\">5</span>, no. <span class=\"issue\">2</span>, pp. <span class=\"pages\">123-145</span>. <span class=\"doi\">https://doi.org/10.1234/jcs.2023.01</span></p>"
    );
}

#[test]
fn apa_plain_text_of_sample() {
    let pieces = create_sample_reference().render(ReferenceStyle::APA);
    assert_eq!(
        plain(&pieces),
        "Smith, John, Doe, Jane (2023). A Study of Reference Styles. Journal of Citation Studies vol. 5, no. 2, pp. 123-145. https://doi.org/10.1234/jcs.2023.01"
    );
}

#[test]
fn sample_in_every_style() {
    let r = create_sample_reference();
    let texts: Vec<String> = STYLES.iter().map(|s| plain(&r.render(*s))).collect();
    assert_eq!(texts[1], "Smith, John, and Doe, Jane. A Study of Reference Styles. Journal of Citation Studies, vol. 5, no. 2, 2023, pp. 123-145. DOI: 10.1234/jcs.2023.01");
    assert_eq!(texts[2], "Smith, John, and Doe, Jane. A Study of Reference Styles Journal of Citation Studies 5, no. 2 (2023): 123-145. https://doi.org/10.1234/jcs.2023.01");
    assert_eq!(texts[3], "Smith, John, Doe, Jane (2023) A Study of Reference Styles, Journal of Citation Studies, 5(2), pp. 123-145. DOI: 10.1234/jcs.2023.01");
    assert_eq!(texts[4], "John S, Jane D. A Study of Reference Styles. Journal of Citation Studies. 2023;5(2):123-145. doi: 10.1234/jcs.2023.01");
    assert_eq!(texts[5], "John S., Jane D.A Study of Reference Styles, Journal of Citation Studies, vol. 5, no. 2, pp. 123-145, 2023. DOI: 10.1234/jcs.2023.01");
}

fn after_title(s: ReferenceStyle) -> &'static str {
    match s {
        ReferenceStyle::APA | ReferenceStyle::MLA | ReferenceStyle::Vancouver => ". ",
        ReferenceStyle::Chicago | ReferenceStyle::Harvard | ReferenceStyle::IEEE => "",
    }
}

#[test]
fn title_only_renders_title_and_its_separator() {
    for s in STYLES {
        let r = title_only("On Things");
        let text = plain(&r.render(s));
        assert!(!text.trim_end().ends_with([',', ';', ':', '(']));
        let pieces = r.render(s);
        assert_eq!(plain(&pieces), format!("On Things{}", after_title(s)));
        let html = r.format(s, OutputFormat::HTML);
        assert!(html.contains("<span class=\"title\">On Things</span>"));
        assert!(!html.contains("()"));
        assert!(!html.contains("vol."));
    }
}

#[test]
fn removing_a_field_removes_only_its_fragment() {
    let full = create_sample_reference();
    let mut no_year = create_sample_reference();
    no_year.year = None;
    assert_eq!(
        plain(&no_year.render(ReferenceStyle::APA)),
        "Smith, John, Doe, JaneA Study of Reference Styles. Journal of Citation Studies vol. 5, no. 2, pp. 123-145. https://doi.org/10.1234/jcs.2023.01"
    );
    let mut no_pages = create_sample_reference();
    no_pages.pages = None;
    assert_eq!(
        plain(&no_pages.render(ReferenceStyle::IEEE)),
        "John S., Jane D.A Study of Reference Styles, Journal of Citation Studies, vol. 5, no. 2, 2023. DOI: 10.1234/jcs.2023.01"
    );
    let mut no_volume = create_sample_reference();
    no_volume.volume = None;
    assert_eq!(
        plain(&no_volume.render(ReferenceStyle::Vancouver)),
        "John S, Jane D. A Study of Reference Styles. Journal of Citation Studies. 2023123-145. doi: 10.1234/jcs.2023.01"
    );
    assert_eq!(full.render(ReferenceStyle::MLA).len(), no_year.render(ReferenceStyle::MLA).len() + 2);
}

#[test]
fn issue_without_volume_is_not_rendered() {
    for s in STYLES {
        let mut r = title_only("T");
        r.issue = Some(9);
        assert_eq!(plain(&r.render(s)), format!("T{}", after_title(s)));
    }
}

#[test]
fn vancouver_caps_at_six_authors() {
    let seven = with_authors(&["Ann Alpha", "Bob Beta", "Cy Gamma", "Di Delta", "Ed Eps", "Flo Zeta", "Gus Eta"]);
    assert_eq!(
        plain(&seven.render(ReferenceStyle::Vancouver)),
        "Alpha A, Beta B, Gamma C, Delta D, Eps E, Zeta F, et al. T. "
    );
    let six = with_authors(&["Ann Alpha", "Bob Beta", "Cy Gamma", "Di Delta", "Ed Eps", "Flo Zeta"]);
    let text = plain(&six.render(ReferenceStyle::Vancouver));
    assert_eq!(text, "Alpha A, Beta B, Gamma C, Delta D, Eps E, Zeta F. T. ");
    assert!(!text.contains("et al"));
}

#[test]
fn ieee_prints_every_author_dotted() {
    let seven = with_authors(&["Ann Alpha", "Bob Beta", "Cy Gamma", "Di Delta", "Ed Eps", "Flo Zeta", "Gus  Eta  "]);
    assert_eq!(
        plain(&seven.render(ReferenceStyle::IEEE)),
        "Alpha A., Beta B., Gamma C., Delta D., Eps E., Zeta F., Eta G.T"
    );
}

#[test]
fn short_name_of_blank_and_empty_names() {
    let r = with_authors(&["", "   "]);
    assert_eq!(plain(&r.render(ReferenceStyle::Vancouver)), "  ,   . T. ");
}

#[test]
fn serial_author_lists() {
    for s in [ReferenceStyle::MLA, ReferenceStyle::Chicago] {
        let title = format!("T{}", after_title(s));
        let one = with_authors(&["Ann Alpha"]).render(s);
        assert_eq!(plain(&one), format!("Ann Alpha. {}", title));
        assert_eq!(count_text(&one, ", and "), 0);
        let two = with_authors(&["Ann Alpha", "Bob Beta"]).render(s);
        assert_eq!(plain(&two), format!("Ann Alpha, and Bob Beta. {}", title));
        assert_eq!(count_text(&two, ", and "), 1);
        assert_eq!(count_text(&two, ", "), 0);
        let four = with_authors(&["A", "B", "C", "D"]).render(s);
        assert_eq!(plain(&four), format!("A, B, C, and D. {}", title));
        assert_eq!(count_text(&four, ", and "), 1);
        assert_eq!(count_text(&four, ", "), 2);
    }
}

#[test]
fn rendering_twice_is_identical() {
    let r = create_sample_reference();
    for s in STYLES {
        assert_eq!(r.format(s, OutputFormat::HTML), r.format(s, OutputFormat::HTML));
    }
}

#[test]
fn additional_info_does_not_change_output() {
    let plain_ref = create_sample_reference();
    let mut extra = create_sample_reference();
    extra.additional_info.insert("isbn".to_string(), "123".to_string());
    extra.url = Some("https://example.org".to_string());
    extra.publisher = Some("Press".to_string());
    for s in STYLES {
        assert_eq!(plain_ref.format(s, OutputFormat::HTML), extra.format(s, OutputFormat::HTML));
    }
}

#[test]
fn every_style_has_its_own_class() {
    let r = create_sample_reference();
    let outputs: Vec<String> = STYLES.iter().map(|s| r.format(*s, OutputFormat::HTML)).collect();
    let classes = ["apa", "mla", "chicago", "harvard", "vancouver", "ieee"];
    for (out, class) in outputs.iter().zip(classes.iter()) {
        assert!(out.starts_with(&format!("<p class=\"{}-reference\">", class)));
    }
    for i in 0..outputs.len() {
        for j in 0..outputs.len() {
            if i != j {
                assert_ne!(outputs[i], outputs[j]);
            }
        }
    }
}

#[test]
fn html_special_characters_are_escaped() {
    let r = title_only("Cats & <Dogs> \"quoted\"");
    assert_eq!(
        r.format(ReferenceStyle::Harvard, OutputFormat::HTML),
        "<p class=\"harvard-reference\"><span class=\"title\">Cats &amp; &lt;Dogs&gt; &quot;quoted&quot;</span></p>"
    );
}

#[test]
fn numbers_render_in_decimal() {
    let mut r = title_only("T");
    r.year = Some(7);
    r.volume = Some(4294967295);
    r.issue = Some(10);
    assert_eq!(plain(&r.render(ReferenceStyle::IEEE)), "T, vol. 4294967295, no. 10, 7.");
}

#[test]
fn missing_fields_leave_no_doubled_separator() {
    let mut r = create_sample_reference();
    r.container = None;
    assert_eq!(
        plain(&r.render(ReferenceStyle::MLA)),
        "Smith, John, and Doe, Jane. A Study of Reference Styles. vol. 5, no. 2, 2023, pp. 123-145. DOI: 10.1234/jcs.2023.01"
    );
    assert_eq!(
        plain(&r.render(ReferenceStyle::Harvard)),
        "Smith, John, Doe, Jane (2023) A Study of Reference Styles, 5(2), pp. 123-145. DOI: 10.1234/jcs.2023.01"
    );
    let mut no_year = create_sample_reference();
    no_year.year = None;
    assert_eq!(
        plain(&no_year.render(ReferenceStyle::Vancouver)),
        "John S, Jane D. A Study of Reference Styles. Journal of Citation Studies. ;5(2):123-145. doi: 10.1234/jcs.2023.01"
    );
    let mut ieee = with_authors(&["Gus Gray"]);
    ieee.year = Some(2020);
    assert_eq!(plain(&ieee.render(ReferenceStyle::IEEE)), "Gray G.T, 2020.");
    assert_eq!(plain(&with_authors(&[]).render(ReferenceStyle::IEEE)), "T");
}

#[test]
fn format_request_is_answered_with_html() {
    let request = FormatRequest { reference: create_sample_reference(), style: ReferenceStyle::APA };
    let expected = create_sample_reference().format(ReferenceStyle::APA, OutputFormat::HTML);
    assert_eq!(format_reference(request).formatted_reference, expected);
}

fn removes_one_run(full: &str, less: &str) -> bool {
    let f = full.as_bytes();
    let l = less.as_bytes();
    let mut p = 0;
    while p < l.len() && f[p] == l[p] {
        p += 1;
    }
    let mut q = 0;
    while q < l.len() - p && f[f.len() - 1 - q] == l[l.len() - 1 - q] {
        q += 1;
    }
    p + q == l.len() && f.len() > l.len()
}

#[test]
fn each_removed_field_is_one_contiguous_run_of_html() {
    for s in STYLES {
        let full = create_sample_reference().format(s, OutputFormat::HTML);
        let removals: [fn(&mut Reference); 6] = [
            |r| r.year = None,
            |r| r.container = None,
            |r| r.volume = None,
            |r| r.issue = None,
            |r| r.pages = None,
            |r| r.doi = None,
        ];
        for remove in removals {
            let mut r = create_sample_reference();
            remove(&mut r);
            let less = r.format(s, OutputFormat::HTML);
            assert!(removes_one_run(&full, &less), "{:?}: {}", s, less);
        }
    }
}
