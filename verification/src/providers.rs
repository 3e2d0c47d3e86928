//! The built-in provider templates: where each OpenAI-compatible service
//! lives, which model it starts with, and where its documentation is.
use vstd::prelude::*;

verus! {

/// A built-in provider: its name, API base URL, default model and the page
/// where a key is obtained.
#[derive(Debug, Clone, Copy)]
pub struct ProviderTemplate {
    pub name: &'static str,
    pub base_url: &'static str,
    pub default_model: &'static str,
    pub docs_url: &'static str,
}

/// Whether `t` carries exactly these four texts.
pub open spec fn template_is(
    t: ProviderTemplate,
    name: Seq<char>,
    base_url: Seq<char>,
    default_model: Seq<char>,
    docs_url: Seq<char>,
) -> bool {
    &&& t.name@ == name
    &&& t.base_url@ == base_url
    &&& t.default_model@ == default_model
    &&& t.docs_url@ == docs_url
}

/// The built-in templates, in the order the settings page lists them:
/// DeepSeek, Moonshot, Qwen (DashScope) and OpenAI.
pub fn templates() -> (r: Vec<ProviderTemplate>)
    ensures
        r@.len() == 4,
        template_is(
            r@[0],
            "deepseek"@,
            "https://api.deepseek.com/v1"@,
            "deepseek-v4-flash"@,
            "https://platform.deepseek.com/"@,
        ),
        template_is(
            r@[1],
            "moonshot"@,
            "https://api.moonshot.cn/v1"@,
            "kimi-k2.6"@,
            "https://platform.moonshot.cn/"@,
        ),
        template_is(
            r@[2],
            "qwen"@,
            "https://dashscope.aliyuncs.com/compatible-mode/v1"@,
            "qwen3.7-flash"@,
            "https://bailian.console.aliyun.com/"@,
        ),
        template_is(
            r@[3],
            "openai"@,
            "https://api.openai.com/v1"@,
            "gpt-5.6-sol"@,
            "https://platform.openai.com/"@,
        ),
{
    vec![
        ProviderTemplate {
            name: "deepseek",
            base_url: "https://api.deepseek.com/v1",
            default_model: "deepseek-v4-flash",
            docs_url: "https://platform.deepseek.com/",
        },
        ProviderTemplate {
            name: "moonshot",
            base_url: "https://api.moonshot.cn/v1",
            default_model: "kimi-k2.6",
            docs_url: "https://platform.moonshot.cn/",
        },
        ProviderTemplate {
            name: "qwen",
            base_url: "https://dashscope.aliyuncs.com/compatible-mode/v1",
            default_model: "qwen3.7-flash",
            docs_url: "https://bailian.console.aliyun.com/",
        },
        ProviderTemplate {
            name: "openai",
            base_url: "https://api.openai.com/v1",
            default_model: "gpt-5.6-sol",
            docs_url: "https://platform.openai.com/",
        },
    ]
}

} // verus!
