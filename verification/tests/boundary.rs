use meme_agent::wire::input_text;
use meme_agent::{get_output_len, get_output_ptr, run, MemeAnalysisRequest, OutputBuffer};

const UNCLASSIFIED: &str = "{\"archetype\":\"Unclassified\",\"analysis\":\"The provided description did not match a known meme archetype. This type of meme is highly unpredictable.\",\"investmentSuggestion\":\"Speculative\"}";

fn request(description: &str) -> Option<MemeAnalysisRequest> {
    Some(MemeAnalysisRequest {
        meme_description: description.to_string(),
    })
}

/// Stands in for the host side of the boundary: reads the region as text
/// and takes the description out of the payload.
fn decode(payload: &[u8]) -> Option<MemeAnalysisRequest> {
    let value: serde_json::Value = serde_json::from_str(input_text(payload)).ok()?;
    let description = value.as_object()?.get("memeDescription")?.as_str()?;
    request(description)
}

fn output_of(decoded: Option<MemeAnalysisRequest>) -> Vec<u8> {
    let mut buffer = OutputBuffer::new();
    run(&mut buffer, decoded);
    get_output_ptr(&buffer).to_vec()
}

#[test]
fn output_is_empty_before_the_first_run() {
    let buffer = OutputBuffer::new();
    assert_eq!(get_output_len(&buffer), 0);
    assert!(get_output_ptr(&buffer).is_empty());
}

#[test]
fn payload_about_a_dancing_tiktok_trend() {
    let mut buffer = OutputBuffer::new();
    run(
        &mut buffer,
        decode(b"{\"memeDescription\":\"a dancing tiktok trend\"}"),
    );
    let value: serde_json::Value = serde_json::from_slice(get_output_ptr(&buffer)).unwrap();
    assert_eq!(value["archetype"].as_str(), Some("Viral Challenge / Dance"));
    assert_eq!(value["investmentSuggestion"].as_str(), Some("High Potential"));
    assert_eq!(
        get_output_ptr(&buffer),
        "{\"archetype\":\"Viral Challenge / Dance\",\"analysis\":\"Viral challenges have a very high but short-lived peak. They can generate massive, rapid interest but fade just as quickly. High risk, high reward.\",\"investmentSuggestion\":\"High Potential\"}".as_bytes()
    );
}

#[test]
fn payload_without_keyword_overlap() {
    let mut buffer = OutputBuffer::new();
    run(&mut buffer, decode(b"{\"memeDescription\":\"xyz\"}"));
    let value: serde_json::Value = serde_json::from_slice(get_output_ptr(&buffer)).unwrap();
    assert_eq!(value["archetype"].as_str(), Some("Unclassified"));
    assert_eq!(value["investmentSuggestion"].as_str(), Some("Speculative"));
    assert_eq!(get_output_ptr(&buffer), UNCLASSIFIED.as_bytes());
}

#[test]
fn run_folds_case_before_matching() {
    let upper = output_of(request("A DANCING TIKTOK TREND"));
    let lower = output_of(request("a dancing tiktok trend"));
    assert_eq!(upper, lower);
    let value: serde_json::Value = serde_json::from_slice(&upper).unwrap();
    assert_eq!(value["archetype"].as_str(), Some("Viral Challenge / Dance"));
}

#[test]
fn run_twice_on_the_same_payload_gives_the_same_bytes() {
    let payload = b"{\"memeDescription\":\"A SURPRISED cat\"}";
    let mut buffer = OutputBuffer::new();
    run(&mut buffer, decode(payload));
    let first = get_output_ptr(&buffer).to_vec();
    run(&mut buffer, decode(payload));
    let second = get_output_ptr(&buffer).to_vec();
    assert_eq!(first, second);
    assert_eq!(first, output_of(decode(payload)));
}

#[test]
fn run_does_not_depend_on_the_previous_output() {
    let mut buffer = OutputBuffer::new();
    run(&mut buffer, request("a dancing tiktok trend"));
    run(&mut buffer, request("xyz"));
    assert_eq!(get_output_ptr(&buffer), UNCLASSIFIED.as_bytes());
    assert_eq!(get_output_ptr(&buffer), output_of(request("xyz")).as_slice());
}

#[test]
fn undecoded_payload_is_answered_as_the_empty_description() {
    assert_eq!(output_of(None), output_of(request("")));
    assert_eq!(output_of(None), UNCLASSIFIED.as_bytes());
}

#[test]
fn malformed_payloads_are_answered_as_the_empty_description() {
    let empty = output_of(request(""));
    assert_eq!(output_of(decode(b"not json at all")), empty);
    assert_eq!(output_of(decode(b"")), empty);
    assert_eq!(output_of(decode(b"{\"memeDescription\":")), empty);
    assert_eq!(output_of(decode(b"{\"other\":\"a dancing tiktok trend\"}")), empty);
    assert_eq!(output_of(decode(b"{\"memeDescription\":42}")), empty);
    assert_eq!(output_of(decode(&[0xff, 0xfe, 0x00])), empty);
}

#[test]
fn output_length_is_the_length_of_the_encoded_response() {
    let mut buffer = OutputBuffer::new();
    run(&mut buffer, request("xyz"));
    assert_eq!(get_output_len(&buffer), UNCLASSIFIED.len());
    assert_eq!(get_output_len(&buffer), 184);
    assert_eq!(get_output_len(&buffer), get_output_ptr(&buffer).len());
    run(&mut buffer, request("my dog"));
    assert_eq!(get_output_len(&buffer), get_output_ptr(&buffer).len());
    assert_eq!(get_output_len(&buffer), output_of(request("my dog")).len());
}

#[test]
fn output_is_one_json_object_with_three_text_members() {
    for description in ["", "xyz", "happy", "a \"quoted\" dance", "line\nbreak face"] {
        let bytes = output_of(request(description));
        let value: serde_json::Value = serde_json::from_slice(&bytes).unwrap();
        let object = value.as_object().unwrap();
        assert_eq!(object.len(), 3);
        assert!(object["archetype"].is_string());
        assert!(object["analysis"].is_string());
        assert!(object["investmentSuggestion"].is_string());
    }
}

#[test]
fn each_buffer_holds_its_own_output() {
    let mut first = OutputBuffer::new();
    let mut second = OutputBuffer::new();
    run(&mut first, request("coding"));
    assert_eq!(get_output_len(&second), 0);
    run(&mut second, request("xyz"));
    assert_ne!(get_output_ptr(&first), get_output_ptr(&second));
    assert_eq!(get_output_ptr(&second), UNCLASSIFIED.as_bytes());
}
