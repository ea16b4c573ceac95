use pi_labs::nmea::{gga_line_complete, parse_gga, split_fields, GgaSentence};

fn chars(s: &str) -> Vec<char> {
    s.chars().collect()
}

fn text(v: &[char]) -> String {
    v.iter().collect()
}

#[test]
fn split_keeps_empty_fields() {
    let f = split_fields(&chars("a,,bc,"));
    let f: Vec<String> = f.iter().map(|x| text(x)).collect();
    assert_eq!(f, vec!["a", "", "bc", ""]);
}

#[test]
fn split_of_empty_line_is_one_empty_field() {
    let f = split_fields(&chars(""));
    assert_eq!(f.len(), 1);
    assert!(f[0].is_empty());
}

#[test]
fn split_then_join_gives_line_back() {
    let line = "$GPGGA,092750.000,5321.6802,N,00630.3372,W,1,8,1.03,61.7,M,55.2,M,,*76";
    let f = split_fields(&chars(line));
    let f: Vec<String> = f.iter().map(|x| text(x)).collect();
    assert_eq!(f.join(","), line);
    assert_eq!(f.len(), 15);
}

#[test]
fn gga_fix_gives_coordinate_digits() {
    let line = chars("$GPGGA,092750.000,5321.68025,N,00630.33721,W,1,8,1.03,61.7,M,55.2,M,,*76");
    assert!(gga_line_complete(&line));
    match parse_gga(&line) {
        GgaSentence::Position { lat_deg, lat_min, lon_deg, lon_min } => {
            assert_eq!(text(&lat_deg), "53");
            assert_eq!(text(&lat_min), "21.6802");
            assert_eq!(text(&lon_deg), "006");
            assert_eq!(text(&lon_min), "30.3372");
        }
        GgaSentence::Other => panic!("fix not recognised"),
    }
}

#[test]
fn other_sentences_are_skipped() {
    let line = chars("$GPRMC,092750.000,A,5321.6802,N,00630.3372,W,0.02,31.66,280511,,,A*43");
    assert!(gga_line_complete(&line));
    assert!(matches!(parse_gga(&line), GgaSentence::Other));
    assert!(matches!(parse_gga(&chars("")), GgaSentence::Other));
}

#[test]
fn short_gga_fields_are_incomplete() {
    assert!(!gga_line_complete(&chars("$GPGGA,1,4807.038,N,01131.000,E")));
    assert!(!gga_line_complete(&chars("$GPGGA,1,4807.0381")));
    assert!(gga_line_complete(&chars("$GPGGA,1,4807.0381,N,01131.0000,E")));
}
