use ifsrs::scene::Iterator;
use ifsrs::scene::RealParam;
use ifsrs::scene::Transform;
use ifsrs::scene::TransformSource;
use ifsrs::scene::Vec3Param;
use ifsrs::scene::Wgsl;
use ifsrs::shader::build_shader;
use ifsrs::shader::find_from;
use ifsrs::shader::matches_at;
use ifsrs::shader::push_decimal;
use ifsrs::shader::substitute;
use ifsrs::shader::synthesize;
use ifsrs::shader::TemplateError;
use ifsrs::shader::TRANSFORMS_TOKEN;

fn number(bits: u64) -> String {
    format!("{}", f64::from_bits(bits))
}

fn scalar_param(name: &str, x: f64) -> RealParam {
    RealParam { name: name.to_string(), value: x.to_bits() }
}

fn vector_param(name: &str, x: f64, y: f64, z: f64) -> Vec3Param {
    Vec3Param { name: name.to_string(), x: x.to_bits(), y: y.to_bits(), z: z.to_bits() }
}

fn transform(source: &str, reals: Vec<RealParam>, vec3s: Vec<Vec3Param>) -> Transform {
    Transform::from_source(
        TransformSource {
            name: "t".to_string(),
            version: "1".to_string(),
            tags: vec![],
            real_params: Some(reals),
            vec3_params: Some(vec3s),
            wgsl: Wgsl { src: source.to_string() },
        },
        "".to_string(),
    )
}

fn iterator(source: &str, reals: Vec<RealParam>, vec3s: Vec<Vec3Param>) -> Iterator {
    Iterator::new(0, "it".to_string(), transform(source, reals, vec3s))
}

#[test]
fn decimal_digits() {
    for (n, want) in [(0usize, "0"), (7, "7"), (9, "9"), (10, "10"), (42, "42"), (100, "100"), (65535, "65535")] {
        let mut out = String::from("n=");
        push_decimal(&mut out, n);
        assert_eq!(out, format!("n={}", want));
    }
    let mut out = String::new();
    push_decimal(&mut out, usize::MAX);
    assert_eq!(out, usize::MAX.to_string());
}

#[test]
fn no_iterators_no_text() {
    assert_eq!(synthesize(&vec![], &number), "");
}

#[test]
fn one_iterator_without_parameters() {
    let text = synthesize(&vec![iterator("p = p * 0.5;", vec![], vec![])], &number);
    let want = "\n                if (iter.tf_id == 0) {\n                    \n                    \n                    p = p * 0.5;\n                }";
    assert_eq!(text, want);
}

#[test]
fn parameters_become_declarations() {
    let it = iterator(
        "p = p * scale + offset;",
        vec![scalar_param("scale", 0.5), scalar_param("bias", 2.0)],
        vec![vector_param("offset", 1.0, -2.5, 0.0)],
    );
    let text = synthesize(&vec![it], &number);
    let want = format!(
        "\n                if (iter.tf_id == 0) {{\n                    {}\n                    {}\n                    {}\n                }}",
        "\nvar scale = 0.5;\nvar bias = 2;",
        "\nvar offset = vec3(1, -2.5, 0);",
        "p = p * scale + offset;"
    );
    assert_eq!(text, want);
}

#[test]
fn branches_follow_list_order() {
    let its: Vec<Iterator> = (0..12).map(|i| iterator(&format!("// {}", i), vec![], vec![])).collect();
    let text = synthesize(&its, &number);
    let mut want = String::new();
    for i in 0..12 {
        want.push_str(&format!(
            "\n                if (iter.tf_id == {}) {{\n                    \n                    \n                    // {}\n                }}",
            i, i
        ));
    }
    assert_eq!(text, want);
    assert!(text.find("tf_id == 10").unwrap() < text.find("tf_id == 11").unwrap());
}

#[test]
fn parameters_of_the_iterator_win_over_defaults() {
    let mut it = iterator("x", vec![scalar_param("a", 1.0)], vec![]);
    it.real_params[0].value = 3.0f64.to_bits();
    let text = synthesize(&vec![it], &number);
    assert!(text.contains("\nvar a = 3;"));
    assert!(!text.contains("var a = 1;"));
}

#[test]
fn matching_and_finding() {
    let hay = b"abcabcab";
    assert!(matches_at(hay, b"abc", 0));
    assert!(!matches_at(hay, b"abc", 1));
    assert!(matches_at(hay, b"abc", 3));
    assert!(!matches_at(hay, b"abc", 6));
    assert!(!matches_at(hay, b"abc", 8));
    assert!(!matches_at(hay, b"abc", 100));
    assert!(matches_at(hay, b"", 8));
    assert!(!matches_at(hay, b"", 9));
    assert_eq!(find_from(hay, b"abc", 0), Some(0));
    assert_eq!(find_from(hay, b"abc", 1), Some(3));
    assert_eq!(find_from(hay, b"abc", 4), None);
    assert_eq!(find_from(hay, b"ab", 4), Some(6));
    assert_eq!(find_from(hay, b"", 8), Some(8));
    assert_eq!(find_from(hay, b"", 9), None);
    assert_eq!(find_from(b"", b"a", 0), None);
}

#[test]
fn substitute_replaces_the_one_token() {
    let out = substitute(b"head @transforms tail", b"@transforms", b"BODY").unwrap();
    assert_eq!(out, b"head BODY tail");
    assert_eq!(substitute(b"@transforms", b"@transforms", b"").unwrap(), b"");
    assert_eq!(substitute(b"x@transforms", b"@transforms", b"yz").unwrap(), b"xyz");
    assert_eq!(substitute(b"@transformsx", b"@transforms", b"yz").unwrap(), b"yzx");
}

#[test]
fn substitute_refuses_a_missing_token() {
    assert_eq!(substitute(b"no token here", b"@transforms", b"BODY"), Err(TemplateError::TokenMissing));
    assert_eq!(substitute(b"", b"@transforms", b"BODY"), Err(TemplateError::TokenMissing));
    assert_eq!(substitute(b"@transform", b"@transforms", b"BODY"), Err(TemplateError::TokenMissing));
}

#[test]
fn substitute_refuses_a_repeated_token() {
    assert_eq!(
        substitute(b"@transforms and @transforms", b"@transforms", b"BODY"),
        Err(TemplateError::TokenRepeated)
    );
    assert_eq!(substitute(b"aaa", b"aa", b"b"), Err(TemplateError::TokenRepeated));
    assert_eq!(substitute(b"ab", b"", b"x"), Err(TemplateError::TokenRepeated));
    assert_eq!(substitute(b"", b"", b"x").unwrap(), b"x");
}

#[test]
fn build_shader_fills_the_template() {
    let template = "fn main() {\n@transforms\n}\n// ρθφ";
    let its = vec![iterator("p = -p;", vec![scalar_param("k", 1.5)], vec![])];
    let out = build_shader(template, &its, &number).unwrap();
    let text = String::from_utf8(out).unwrap();
    let body = synthesize(&its, &number);
    assert_eq!(text, template.replace(TRANSFORMS_TOKEN, &body));
    assert!(text.starts_with("fn main() {\n\n                if (iter.tf_id == 0) {"));
    assert!(text.ends_with("}\n}\n// ρθφ"));
    assert_eq!(TRANSFORMS_TOKEN, "@transforms");
}

#[test]
fn build_shader_reports_template_errors() {
    let its = vec![iterator("p = -p;", vec![], vec![])];
    assert_eq!(build_shader("fn main() {}", &its, &number), Err(TemplateError::TokenMissing));
    assert_eq!(
        build_shader("@transforms @transforms", &its, &number),
        Err(TemplateError::TokenRepeated)
    );
}
