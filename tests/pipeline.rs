use mt4_analyzer::{
    check_status, compile_prompt, completion_url, data_log_path, extract_text, model_or_default,
    prompt_log_path, read_reply, request_body, resolve_directive, respond, AnalysisResponse,
    Candidate, Candle, CompletionError, Content, GeminiResponse, LocalTime, Mt4Data, Part, Price,
    COLUMNS, DEFAULT_MODEL, FALLBACK_DIRECTIVE, NO_ANALYSIS,
};

fn candle(time: &str, base: u64) -> Candle {
    let p = |t: u64| Price { negative: false, thousandths: t };
    Candle { time: time.to_string(), open: p(base), high: p(base + 200), low: p(base - 100), close: p(base + 50) }
}

fn snapshot(symbol: &str, n: usize) -> Mt4Data {
    let candles = (0..n).map(|i| candle(&format!("2025.01.02 {:02}:00", i), 150000 + i as u64 * 10)).collect();
    Mt4Data {
        symbol: symbol.to_string(),
        period: 60,
        candles,
        mid_period: 15,
        mid_candles: Vec::new(),
        low_period: 5,
        low_candles: Vec::new(),
        sub_symbol: String::new(),
        sub_symbol_period: 0,
        sub_candles: Vec::new(),
        sub_symbol_low_period: 0,
        sub_low_candles: Vec::new(),
    }
}

fn at(second: u32) -> LocalTime {
    LocalTime { year: 2025, month: 1, day: 2, hour: 10, minute: 30, second }
}

fn reply(text: Option<&str>) -> GeminiResponse {
    GeminiResponse {
        candidates: Some(vec![Candidate {
            content: Some(Content {
                role: Some("model".to_string()),
                parts: Some(vec![Part { text: text.map(|t| t.to_string()) }]),
            }),
        }]),
    }
}

#[test]
fn prompt_is_deterministic_for_one_time() {
    let d = snapshot("USDJPY", 3);
    let a = compile_prompt(&d, &at(1), "directive");
    let b = compile_prompt(&d, &at(1), "directive");
    assert_eq!(a, b);
}

#[test]
fn prompts_differ_only_in_time_line() {
    let d = snapshot("USDJPY", 3);
    let a = compile_prompt(&d, &at(1), "directive");
    let b = compile_prompt(&d, &at(2), "directive");
    assert_ne!(a, b);
    assert_eq!(a.replace("10:30:01", "X"), b.replace("10:30:02", "X"));
}

#[test]
fn prompt_sections_in_order() {
    let d = snapshot("USDJPY", 1);
    let p = compile_prompt(&d, &at(9), "STRATEGY");
    let expected = format!(
        "=== メイン分析対象: USDJPY ===\n\n現在時刻: 2025年01月02日 10:30:09\n\n\
         【上位足 (60分足)】 - 環境認識\n{c}(2025.01.02 00:00, 150.000, 150.200, 149.900, 150.050)\n\n\
         【中位足 (15分足)】 - 詳細分析用\n{c}\n\n\
         【下位足 (5分足)】 - エントリータイミング用\n{c}\n\n\
         === 相関確認対象:  ===\n(メイン通貨ペアとの同調・乖離を確認してください)\n\n\
         【相関・上位足 (0分足)】\n{c}\n\n\
         【相関・下位足 (0分足)】\n{c}\n\n\
         STRATEGY",
        c = COLUMNS
    );
    assert_eq!(p, expected);
}

#[test]
fn absent_series_keep_their_headers() {
    let d = snapshot("EURUSD", 2);
    let p = compile_prompt(&d, &at(0), "");
    assert!(p.contains(&format!("【中位足 (15分足)】 - 詳細分析用\n{}\n\n", COLUMNS)));
    assert!(p.contains(&format!("【下位足 (5分足)】 - エントリータイミング用\n{}\n\n", COLUMNS)));
    assert!(p.contains("=== 相関確認対象:  ===\n(メイン通貨ペアとの同調・乖離を確認してください)\n\n"));
    assert!(p.contains(&format!("【相関・上位足 (0分足)】\n{}\n\n", COLUMNS)));
    assert!(p.contains(&format!("【相関・下位足 (0分足)】\n{}\n\n", COLUMNS)));
    let order = ["【上位足", "【中位足", "【下位足", "=== 相関確認対象", "【相関・上位足", "【相関・下位足"];
    let places: Vec<usize> = order.iter().map(|h| p.find(h).unwrap()).collect();
    assert!(places.windows(2).all(|w| w[0] < w[1]));
}

#[test]
fn correlated_symbol_adds_its_section() {
    let mut d = snapshot("EURUSD", 1);
    d.sub_symbol = "GBPUSD".to_string();
    d.sub_symbol_period = 240;
    d.sub_symbol_low_period = 30;
    d.sub_low_candles = vec![candle("s", 1250)];
    let p = compile_prompt(&d, &at(0), "END");
    assert!(p.contains("=== 相関確認対象: GBPUSD ===\n"));
    assert!(p.contains(&format!("【相関・上位足 (240分足)】\n{}\n\n", COLUMNS)));
    assert!(p.contains(&format!("【相関・下位足 (30分足)】\n{}(s, 1.250, 1.450, 1.150, 1.300)\n\n", COLUMNS)));
    assert!(p.ends_with("\n\nEND"));
}

#[test]
fn missing_directive_falls_back_with_warning() {
    let d = resolve_directive(None);
    assert_eq!(d.text, FALLBACK_DIRECTIVE);
    assert_eq!(d.text, "あなたはFXトレーダーです。データを分析してください。");
    assert!(d.fallback_used);
    let d = resolve_directive(Some("trade the trend".to_string()));
    assert_eq!(d.text, "trade the trend");
    assert!(!d.fallback_used);
}

#[test]
fn empty_candidates_give_sentinel() {
    let r = GeminiResponse { candidates: Some(Vec::new()) };
    assert_eq!(extract_text(&r), "No analysis generated");
    let r = GeminiResponse { candidates: None };
    assert_eq!(extract_text(&r), NO_ANALYSIS);
}

#[test]
fn first_text_is_extracted() {
    assert_eq!(extract_text(&reply(Some("X"))), "X");
}

#[test]
fn broken_links_give_sentinel() {
    assert_eq!(extract_text(&reply(None)), NO_ANALYSIS);
    let no_content = GeminiResponse { candidates: Some(vec![Candidate { content: None }]) };
    assert_eq!(extract_text(&no_content), NO_ANALYSIS);
    let no_parts = GeminiResponse {
        candidates: Some(vec![Candidate { content: Some(Content { role: None, parts: None }) }]),
    };
    assert_eq!(extract_text(&no_parts), NO_ANALYSIS);
    let empty_parts = GeminiResponse {
        candidates: Some(vec![Candidate { content: Some(Content { role: None, parts: Some(Vec::new()) }) }]),
    };
    assert_eq!(extract_text(&empty_parts), NO_ANALYSIS);
}

#[test]
fn non_success_status_is_upstream_error() {
    match check_status(503, "{\"error\":\"overloaded\"}".to_string()) {
        Err(CompletionError::Upstream(b)) => assert_eq!(b, "{\"error\":\"overloaded\"}"),
        other => panic!("unexpected {:?}", other),
    }
    let e = CompletionError::Upstream("boom".to_string());
    assert_eq!(e.message(), "API Error: boom");
    assert!(matches!(check_status(199, String::new()), Err(CompletionError::Upstream(_))));
    assert!(matches!(check_status(300, String::new()), Err(CompletionError::Upstream(_))));
}

#[test]
fn success_status_passes_body_on() {
    assert_eq!(check_status(200, "body".to_string()).unwrap(), "body");
    assert_eq!(check_status(299, "b".to_string()).unwrap(), "b");
}

#[test]
fn undecodable_reply_is_transport_error() {
    match read_reply(Err("bad json".to_string())) {
        Err(CompletionError::Transport(m)) => assert_eq!(m, "bad json"),
        other => panic!("unexpected {:?}", other),
    }
    assert_eq!(CompletionError::Transport("t".to_string()).message(), "t");
}

#[test]
fn request_envelope_quotes_prompt() {
    assert_eq!(
        request_body("hi \"q\"\nline"),
        "{\"contents\":[{\"role\":\"user\",\"parts\":[{\"text\":\"hi \\\"q\\\"\\nline\"}]}]}"
    );
}

#[test]
fn request_envelope_escapes_controls() {
    assert_eq!(
        request_body("a\\b\t\r\u{8}\u{c}\u{1}\u{1f}円"),
        "{\"contents\":[{\"role\":\"user\",\"parts\":[{\"text\":\"a\\\\b\\t\\r\\b\\f\\u0001\\u001f円\"}]}]}"
    );
}

#[test]
fn endpoint_and_model() {
    assert_eq!(
        completion_url("m1", "k2"),
        "https://generativelanguage.googleapis.com/v1beta/models/m1:generateContent?key=k2"
    );
    assert_eq!(model_or_default(None), DEFAULT_MODEL);
    assert_eq!(model_or_default(None), "gemini-3-flash-preview");
    assert_eq!(model_or_default(Some("other".to_string())), "other");
}

#[test]
fn audit_file_names_symbol_and_second() {
    let t = LocalTime { year: 2025, month: 6, day: 30, hour: 23, minute: 59, second: 58 };
    let p = data_log_path("EURUSD", &t);
    assert_eq!(p, "logs/data/log_EURUSD_20250630_235958.json");
    assert!(p.contains("EURUSD") && p.contains("20250630_235958"));
    assert_eq!(prompt_log_path("EURUSD", &t), "logs/prompts/prompt_EURUSD_20250630_235958.txt");
    let other = LocalTime { second: 59, ..t };
    assert_ne!(data_log_path("EURUSD", &other), p);
    assert_ne!(data_log_path("USDJPY", &t), p);
}

#[test]
fn failure_maps_to_error_response() {
    let r = respond("USDJPY", Err(CompletionError::Upstream("quota".to_string())));
    assert_eq!(r.status(), "error");
    match r {
        AnalysisResponse::Failure { message } => assert_eq!(message, "API Error: quota"),
        other => panic!("unexpected {:?}", other),
    }
}

#[test]
fn end_to_end_bullish_bias() {
    let d = snapshot("USDJPY", 5);
    let directive = resolve_directive(Some("be brief".to_string()));
    let prompt = compile_prompt(&d, &at(0), &directive.text);
    assert_eq!(prompt.matches("(2025.01.02 0").count(), 5);
    let body = check_status(200, "{...}".to_string()).unwrap();
    assert!(!body.is_empty());
    let outcome = read_reply(Ok(reply(Some("Bullish bias"))));
    let r = respond(&d.symbol, outcome);
    assert_eq!(r.status(), "success");
    match r {
        AnalysisResponse::Success { symbol, analysis } => {
            assert_eq!(symbol, "USDJPY");
            assert_eq!(analysis, "Bullish bias");
        }
        other => panic!("unexpected {:?}", other),
    }
}
