use check_latest::{compare, SemVer, Timestamp};

const SAMPLE: [&str; 40] = [
    "0.0.0",
    "0.0.1",
    "0.1.0",
    "0.9.0",
    "0.10.0",
    "1.0.0-0",
    "1.0.0-1",
    "1.0.0-2",
    "1.0.0-10",
    "1.0.0-01",
    "1.0.0-1-2",
    "1.0.0-1.0",
    "1.0.0-1.a",
    "1.0.0-A",
    "1.0.0-Z.1",
    "1.0.0-a",
    "1.0.0-a-0",
    "1.0.0-a-b",
    "1.0.0-a.0",
    "1.0.0-a.1.1",
    "1.0.0-a.a",
    "1.0.0-aa",
    "1.0.0-alpha",
    "1.0.0-alpha.1",
    "1.0.0-alpha.beta",
    "1.0.0-beta",
    "1.0.0-beta.2",
    "1.0.0-beta.11",
    "1.0.0-rc.1",
    "1.0.0-rc.1+build.9",
    "1.0.0",
    "1.0.0+build",
    "1.0.0+0.3.7",
    "1.0.1-alpha",
    "1.0.1",
    "1.1.0",
    "2.0.0",
    "10.0.0",
    "18446744073709551615.0.0",
    "18446744073709551615.18446744073709551615.18446744073709551615",
];

#[test]
fn precedence_agrees_with_the_semver_crate() {
    for a in SAMPLE {
        for b in SAMPLE {
            let (x, y) = (SemVer::parse(a).unwrap(), SemVer::parse(b).unwrap());
            let (p, q) = (semver::Version::parse(a).unwrap(), semver::Version::parse(b).unwrap());
            assert_eq!(x.precedes(&y), p < q, "{a} < {b}");
            assert_eq!(x.same_precedence(&y), p == q, "{a} == {b}");
            assert_eq!(compare(&x, &y), p.cmp(&q), "{a} <=> {b}");
            assert_eq!(x.partial_cmp(&y), p.partial_cmp(&q), "{a} <=> {b}");
        }
    }
}

#[test]
fn fields_agree_with_the_semver_crate() {
    for a in SAMPLE {
        let x = SemVer::parse(a).unwrap();
        let p = semver::Version::parse(a).unwrap();
        assert_eq!((x.major, x.minor, x.patch), (p.major, p.minor, p.patch));
        assert_eq!(x.pre.len(), p.pre.len());
        assert_eq!(x.build.len(), p.build.len());
        assert_eq!(x.to_string(), p.to_string());
    }
}

#[test]
fn acceptance_agrees_with_the_semver_crate() {
    for text in ["", "1", "1.2", "1.2.3", "1.2.3-", "1.2.3+", "1.2.3-a..b", "v1.2.3", "1.2.3 ", "\t1.2.3", "01.2.3", "1.2.3-é", "1.2.3-a_b", "1.2.3.4", "1.2.x", "*", ">=1.2.3"] {
        assert_eq!(
            SemVer::parse(text).is_ok(),
            semver::Version::parse(text).is_ok(),
            "{text:?}"
        );
    }
}

#[test]
fn instants_agree_with_chrono() {
    let texts = [
        "1969-12-31T23:59:59.999999999Z",
        "1970-01-01T00:00:00Z",
        "1970-01-01T00:00:00.000000001Z",
        "1999-12-31T23:59:59+14:00",
        "2016-12-31T23:59:60Z",
        "2017-01-01T00:00:00Z",
        "2020-02-29T12:30:00-08:00",
        "2020-02-29T20:30:00Z",
        "2020-02-29T20:30:00.5Z",
        "9999-12-31T23:59:59Z",
    ];
    for a in texts {
        for b in texts {
            let (x, y) = (Timestamp::parse(a).unwrap(), Timestamp::parse(b).unwrap());
            let p: chrono::DateTime<chrono::Utc> = a.parse().unwrap();
            let q: chrono::DateTime<chrono::Utc> = b.parse().unwrap();
            assert_eq!(x.is_earlier(&y), p < q, "{a} < {b}");
            assert_eq!(x == y, p == q, "{a} == {b}");
            assert_eq!(x.partial_cmp(&y), p.partial_cmp(&q), "{a} <=> {b}");
        }
    }
}
