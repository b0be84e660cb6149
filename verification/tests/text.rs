use miner_prover::probe::{count_gpus, GPU_QUERY_COMMAND};
use miner_prover::text::{
    chars_of, decimal_text, parse_i32, same_text, signed_decimal_text, white_space,
};

#[test]
fn white_space_is_that_of_unicode() {
    for code in 0..=0x10ffffu32 {
        if let Some(c) = char::from_u32(code) {
            assert_eq!(white_space(c), c.is_whitespace(), "{:x}", code);
        }
    }
}

#[test]
fn integers_read_like_those_of_the_standard_library() {
    let texts = [
        "", "+", "-", "0", "-0", "+0", "007", "12", "-12", "+12", "2147483647", "2147483648",
        "-2147483648", "-2147483649", "99999999999999999999999", "1a", "a1", " 1", "1 ", "1_000",
        "--1", "+-1", "-+1", "1.0", "\u{661}", "0x10", "00000000000000000000005", "-2147483647",
    ];
    for text in texts {
        assert_eq!(parse_i32(text), text.parse::<i32>().ok(), "{:?}", text);
    }
}

#[test]
fn integers_are_written_and_read_back() {
    for n in [0, 1, 9, 10, 11, 99, 100, 12345, i32::MAX, -1, -9, -10, -12345, i32::MIN] {
        let text = signed_decimal_text(n);
        assert_eq!(text, n.to_string());
        assert_eq!(parse_i32(&text), Some(n));
    }
    for n in [0u64, 7, 65535, u64::MAX] {
        assert_eq!(decimal_text(n), n.to_string());
    }
}

#[test]
fn texts_are_compared_by_their_characters() {
    assert!(same_text("online", "online"));
    assert!(!same_text("online", "Online"));
    assert!(same_text("", ""));
    assert!(!same_text("", " "));
    assert_eq!(chars_of("a\u{e9}\n"), vec!['a', '\u{e9}', '\n']);
}

fn counted_by_the_standard_library(output: &str) -> usize {
    let lines: Vec<&str> =
        output.lines().map(|l| l.trim()).filter(|l| !l.is_empty()).collect();
    lines.iter().filter(|l| l.starts_with("GPU-")).count()
}

#[test]
fn gpus_are_counted_by_lines() {
    assert_eq!(count_gpus("GPU-1\nGPU-2\n"), 2);
    assert_eq!(count_gpus(""), 0);
    let outputs = [
        "", "\n", "GPU-", "GPU", "gpu-1", "GPU-a", "GPU-a\n", "  GPU-a  \n\n\tGPU-b\r\n",
        "x GPU-a", "GPU-a GPU-b", "\r\nGPU-a\r\n", "GPU-a\rGPU-b", "\u{2003}GPU-a\u{3000}",
        "No devices were found", "GPU-a\n\nNVIDIA\nGPU-c", "\u{200b}GPU-a", "GPU-\r", "GPU\n-",
    ];
    for output in outputs {
        assert_eq!(count_gpus(output), counted_by_the_standard_library(output), "{:?}", output);
    }
}

#[test]
fn answers_add_up() {
    for first in ["", "GPU-a", "GPU-a\nfoo", "GPU-a\r\n"] {
        for rest in ["", "GPU-b", "\nGPU-c\nGPU-d"] {
            let head = format!("{}\n", first);
            let whole = format!("{}{}", head, rest);
            assert_eq!(count_gpus(&whole), count_gpus(&head) + count_gpus(rest));
        }
    }
    assert_eq!(count_gpus(" \t \r\n"), 0);
}

#[test]
fn gpus_are_asked_for_by_their_identifiers() {
    assert_eq!(GPU_QUERY_COMMAND, "nvidia-smi --query-gpu=uuid --format=csv,noheader");
}
