use warp_llm::model::{eos_token, format_prompt, tokenizer_repo, weights_source, Which};
use warp_llm::penalty::penalty_window;
use warp_llm::post::{Post, Post2};
use warp_llm::sampling::{select_strategy, Strategy};

#[test]
fn prompt_templates() {
    assert_eq!(
        format_prompt(Which::W2_0_5b, "2+2="),
        "<|im_start|>user\n2+2=<|im_end|>\n<|im_start|>assistant\n"
    );
    assert_eq!(
        format_prompt(Which::DeepseekR1Qwen7B, "hi"),
        "<｜User｜>hi<｜Assistant｜>"
    );
    assert_eq!(
        format_prompt(Which::W25_14bQ8, ""),
        "<|im_start|>user\n<|im_end|>\n<|im_start|>assistant\n"
    );
}

#[test]
fn end_markers() {
    assert_eq!(eos_token(Which::W2_7b), "<|im_end|>");
    assert_eq!(eos_token(Which::DeepseekR1Qwen7B), "<｜end▁of▁sentence｜>");
}

#[test]
fn artifact_locations() {
    assert_eq!(tokenizer_repo(Which::W2_1_5b), "Qwen/Qwen2-1.5B-Instruct");
    assert_eq!(tokenizer_repo(Which::W25_14bQ4), "Qwen/Qwen2.5-Coder-14B-Instruct");
    let w = weights_source(Which::DeepseekR1Qwen7B);
    assert_eq!(w.repo, "unsloth/DeepSeek-R1-Distill-Qwen-7B-GGUF");
    assert_eq!(w.filename, "DeepSeek-R1-Distill-Qwen-7B-Q4_K_M.gguf");
    assert_eq!(w.revision, "main");
    let w = weights_source(Which::W25_14b);
    assert_eq!(w.filename, "qwen2.5-coder-14b-instruct-fp16.gguf");
}

#[test]
fn strategy_selection() {
    assert_eq!(select_strategy(true, Some(5), true), Strategy::ArgMax);
    assert_eq!(select_strategy(true, None, false), Strategy::ArgMax);
    assert_eq!(select_strategy(false, None, false), Strategy::All);
    assert_eq!(select_strategy(false, Some(5), false), Strategy::TopK(5));
    assert_eq!(select_strategy(false, None, true), Strategy::TopP);
    assert_eq!(select_strategy(false, Some(3), true), Strategy::TopKThenTopP(3));
}

#[test]
fn penalty_windows() {
    let tokens = vec![1u32, 2, 3, 4, 5];
    assert_eq!(penalty_window(&tokens, 3), vec![3, 4, 5]);
    assert_eq!(penalty_window(&tokens, 10), vec![1, 2, 3, 4, 5]);
    assert_eq!(penalty_window(&tokens, 0), Vec::<u32>::new());
    assert_eq!(penalty_window(&Vec::new(), 4), Vec::<u32>::new());
}

#[test]
fn posts() {
    let p = Post::fixed(42);
    assert_eq!(p.id, 42);
    assert_eq!(p.title, "Hello, Warp!");
    assert_eq!(p.body, "This is a post about Warp.");
    let q = Post2::new("a prompt".to_string());
    assert_eq!(q.prompt, "a prompt");
    assert!(q.generated.is_none());
    let g = q.generate();
    assert_eq!(g.prompt, "a prompt");
    assert_eq!(
        g.generated.as_deref(),
        Some("This is a generated post from prompt = {&self.prompt}.")
    );
}
