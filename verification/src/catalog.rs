//! The models that the gateway offers, and the provider that serves each.
use crate::text::{begins, starts_with};
use vstd::prelude::*;

verus! {

/// How many models the catalogue lists.
pub const CATALOG_LEN: usize = 144;

/// The catalogue: the name of each model, and who owns it.
pub const MODEL_CATALOG: [(&'static str, &'static str); CATALOG_LEN] = [
    ("01-ai/yi-large", "01-ai"),
    ("acu/deepseek-v4-flash", "acu"),
    ("adept/fuyu-8b", "adept"),
    ("ai21labs/jamba-1.5-large-instruct", "ai21labs"),
    ("aisingapore/sea-lion-7b-instruct", "aisingapore"),
    ("bigcode/starcoder2-15b", "bigcode"),
    ("databricks/dbrx-instruct", "databricks"),
    ("deepseek-ai/deepseek-coder-6.7b-instruct", "deepseek-ai"),
    ("deepseek-ai/deepseek-v4-flash-0731", "deepseek-ai"),
    ("deepseek-ai/deepseek-v4-pro-0813", "deepseek-ai"),
    ("DeepSeek-Prover-V2-7B", "gitee-ai"),
    ("DeepSeek-R1-Distill-Qwen-1.5B", "gitee-ai"),
    ("DeepSeek-R1-Distill-Qwen-14B", "gitee-ai"),
    ("DeepSeek-R1-Distill-Qwen-7B", "gitee-ai"),
    ("GLM-4-9B-0414", "gitee-ai"),
    ("GLM-ASR", "gitee-ai"),
    ("HealthGPT-L14", "gitee-ai"),
    ("HuatuoGPT-o1-7B", "gitee-ai"),
    ("Lingshu-32B", "gitee-ai"),
    ("Qwen2-7B-Instruct", "gitee-ai"),
    ("Qwen3-0.6B", "gitee-ai"),
    ("Qwen3-4B", "gitee-ai"),
    ("Qwen3-8B", "gitee-ai"),
    ("Qwen3-Embedding-4B", "gitee-ai"),
    ("Qwen3-Reranker-0.6B", "gitee-ai"),
    ("Qwen3-Reranker-4B", "gitee-ai"),
    ("Qwen3Guard-Gen-0.6B", "gitee-ai"),
    ("Security-semantic-filtering", "gitee-ai"),
    ("SenseVoiceSmall", "gitee-ai"),
    ("Spark-TTS-0.5B", "gitee-ai"),
    ("bce-reranker-base_v1", "gitee-ai"),
    ("bge-reranker-v2-m3", "gitee-ai"),
    ("glm-4-9b-chat", "gitee-ai"),
    ("internlm3-8b-instruct", "gitee-ai"),
    ("ip-location", "gitee-ai"),
    ("nonescape-v0", "gitee-ai"),
    ("nsfw-classifier", "gitee-ai"),
    ("google/codegemma-1.1-7b", "google"),
    ("google/codegemma-7b", "google"),
    ("google/deplot", "google"),
    ("google/diffusiongemma-26b-a4b-it", "google"),
    ("google/gemma-2b", "google"),
    ("google/gemma-3-12b-it", "google"),
    ("google/gemma-3-4b-it", "google"),
    ("google/gemma-4-31b-it", "google"),
    ("google/recurrentgemma-2b", "google"),
    ("ibm/granite-3.0-3b-a800m-instruct", "ibm"),
    ("ibm/granite-3.0-8b-instruct", "ibm"),
    ("ibm/granite-34b-code-instruct", "ibm"),
    ("ibm/granite-8b-code-instruct", "ibm"),
    ("meta/codellama-70b", "meta"),
    ("meta/llama-3.2-11b-vision-instruct", "meta"),
    ("meta/llama-3.2-90b-vision-instruct", "meta"),
    ("meta/llama-guard-4-12b", "meta"),
    ("meta/llama2-70b", "meta"),
    ("meta/muse-glimmer-30b", "meta"),
    ("microsoft/kosmos-2", "microsoft"),
    ("microsoft/phi-3-vision-128k-instruct", "microsoft"),
    ("microsoft/phi-3.5-moe-instruct", "microsoft"),
    ("minimaxai/minimax-m3", "minimaxai"),
    ("mistralai/codestral-22b-instruct-v0.1", "mistralai"),
    ("mistralai/mistral-7b-instruct-v0.3", "mistralai"),
    ("mistralai/mistral-large", "mistralai"),
    ("mistralai/mistral-large-2-instruct", "mistralai"),
    ("mistralai/mistral-nemotron", "mistralai"),
    ("mistralai/mixtral-8x22b-v0.1", "mistralai"),
    ("moonshotai/kimi-k2.6", "moonshotai"),
    ("moonshotai/kimi-k3", "moonshotai"),
    ("nv-mistralai/mistral-nemo-12b-instruct", "nv-mistralai"),
    ("nvidia/ai-synthetic-video-detector", "nvidia"),
    ("nvidia/cosmos-reason2-8b", "nvidia"),
    ("nvidia/embed-qa-4", "nvidia"),
    ("nvidia/ising-calibration-1.5-31b", "nvidia"),
    ("nvidia/llama-3.1-nemoguard-8b-content-safety", "nvidia"),
    ("nvidia/llama-3.1-nemoguard-8b-topic-control", "nvidia"),
    ("nvidia/llama-3.1-nemotron-51b-instruct", "nvidia"),
    ("nvidia/llama-3.1-nemotron-70b-instruct", "nvidia"),
    ("nvidia/llama-3.1-nemotron-safety-guard-8b-v3", "nvidia"),
    ("nvidia/llama-3.1-nemotron-ultra-253b-v1", "nvidia"),
    ("nvidia/llama-3.2-nemoretriever-1b-vlm-embed-v1", "nvidia"),
    ("nvidia/llama-3.2-nv-embedqa-1b-v1", "nvidia"),
    ("nvidia/llama-nemotron-embed-vl-1b-v2", "nvidia"),
    ("nvidia/llama3-chatqa-1.5-70b", "nvidia"),
    ("nvidia/mistral-nemo-minitron-8b-8k-instruct", "nvidia"),
    ("nvidia/nemotron-3-embed-1b", "nvidia"),
    ("nvidia/nemotron-3-nano-30b-a3b", "nvidia"),
    ("nvidia/nemotron-3-nano-omni-30b-a3b-reasoning", "nvidia"),
    ("nvidia/nemotron-3-super-120b-a12b", "nvidia"),
    ("nvidia/nemotron-3-ultra-550b-a55b", "nvidia"),
    ("nvidia/nemotron-3.5-content-safety", "nvidia"),
    ("nvidia/nemotron-3.5-lightning-30b-a3b", "nvidia"),
    ("nvidia/nemotron-4-340b-instruct", "nvidia"),
    ("nvidia/nemotron-4-340b-reward", "nvidia"),
    ("nvidia/nemotron-nano-3-30b-a3b", "nvidia"),
    ("nvidia/nemotron-parse", "nvidia"),
    ("nvidia/neva-22b", "nvidia"),
    ("nvidia/nv-embedqa-mistral-7b-v2", "nvidia"),
    ("nvidia/nvclip", "nvidia"),
    ("nvidia/riva-translate-4b-instruct", "nvidia"),
    ("nvidia/riva-translate-4b-instruct-v1.1", "nvidia"),
    ("nvidia/riva-translate-4b-instruct-v2", "nvidia"),
    ("nvidia/vila", "nvidia"),
    ("openai/gpt-oss-120b", "openai"),
    ("openai/gpt-oss-20b", "openai"),
    ("poolside/laguna-xs-2.1", "poolside"),
    ("BAAI/bge-large-en-v1.5", "siliconflow"),
    ("BAAI/bge-large-zh-v1.5", "siliconflow"),
    ("BAAI/bge-m3", "siliconflow"),
    ("BAAI/bge-reranker-v2-m3", "siliconflow"),
    ("FunAudioLLM/SenseVoiceSmall", "siliconflow"),
    ("PaddlePaddle/PaddleOCR-VL-1.5", "siliconflow"),
    ("Qwen/Qwen3-ASR-1.7B", "siliconflow"),
    ("THUDM/GLM-4-9B-0414", "siliconflow"),
    ("THUDM/GLM-Z1-9B-0414", "siliconflow"),
    ("TeleAI/TeleSpeechASR", "siliconflow"),
    ("tencent/Hunyuan-MT-7B", "siliconflow"),
    ("snowflake/arctic-embed-l", "snowflake"),
    ("spark/spark-lite", "spark"),
    ("workers-ai/deepseek-r1-32b", "workers-ai"),
    ("workers-ai/gemma-3-12b", "workers-ai"),
    ("workers-ai/llama-3.1-8b", "workers-ai"),
    ("workers-ai/llama-3.2-1b", "workers-ai"),
    ("workers-ai/llama-3.2-3b", "workers-ai"),
    ("workers-ai/llama-3.3-70b", "workers-ai"),
    ("workers-ai/mistral-7b", "workers-ai"),
    ("workers-ai/mistral-small-24b", "workers-ai"),
    ("workers-ai/qwen1.5-7b", "workers-ai"),
    ("workers-ai/qwen2.5-coder-32b", "workers-ai"),
    ("workers-ai/qwq-32b", "workers-ai"),
    ("workers-ai/melotts", "workers-ai-tts"),
    ("writer/palmyra-creative-122b", "writer"),
    ("writer/palmyra-fin-70b-32k", "writer"),
    ("writer/palmyra-med-70b", "writer"),
    ("writer/palmyra-med-70b-32k", "writer"),
    ("zhipu/cogvideox-flash", "zhipu"),
    ("zhipu/cogview-3-flash", "zhipu"),
    ("zhipu/glm-4-flash", "zhipu"),
    ("zhipu/glm-4-flash-250414", "zhipu"),
    ("zhipu/glm-4.1v-thinking-flash", "zhipu"),
    ("zhipu/glm-4.6v-flash", "zhipu"),
    ("zhipu/glm-4.7-flash", "zhipu"),
    ("zhipu/glm-4v-flash", "zhipu"),
    ("zhipu/glm-z1-flash", "zhipu"),
    ("zyphra/zamba2-7b-instruct", "zyphra"),
];

/// A party that serves models to the gateway.
#[derive(Clone, Copy, Debug, PartialEq, Eq, Structural)]
pub enum Provider {
    Nvidia,
    Gitee,
    Siliconflow,
    Zhipu,
    Spark,
    WorkersAi,
    WorkersAiTts,
    Acu,
}

impl Provider {
    /// The name under which a provider is logged.
    pub open spec fn name(self) -> Seq<char> {
        match self {
            Provider::Nvidia => "nvidia"@,
            Provider::Gitee => "gitee"@,
            Provider::Siliconflow => "siliconflow"@,
            Provider::Zhipu => "zhipu"@,
            Provider::Spark => "spark"@,
            Provider::WorkersAi => "workers-ai"@,
            Provider::WorkersAiTts => "workers-ai-tts"@,
            Provider::Acu => "acu"@,
        }
    }

    /// The name under which a provider is logged.
    pub fn label(self) -> (r: &'static str)
        ensures
            r@ == self.name(),
    {
        match self {
            Provider::Nvidia => "nvidia",
            Provider::Gitee => "gitee",
            Provider::Siliconflow => "siliconflow",
            Provider::Zhipu => "zhipu",
            Provider::Spark => "spark",
            Provider::WorkersAi => "workers-ai",
            Provider::WorkersAiTts => "workers-ai-tts",
            Provider::Acu => "acu",
        }
    }
}

/// The name of the model in one line of the catalogue.
pub open spec fn catalog_id(i: int) -> Seq<char> {
    MODEL_CATALOG@[i].0@
}

/// The owner of the model in one line of the catalogue.
pub open spec fn catalog_owner(i: int) -> Seq<char> {
    MODEL_CATALOG@[i].1@
}

/// The first line of the catalogue, at or after a given one, that names a model;
/// the length of the catalogue where no line does.
pub open spec fn catalog_line(model: Seq<char>, from: int) -> int
    decreases CATALOG_LEN - from,
{
    if from < 0 || from >= CATALOG_LEN || catalog_id(from) == model {
        from
    } else {
        catalog_line(model, from + 1)
    }
}

/// The provider that a model's name itself asks for.
pub open spec fn named_provider(model: Seq<char>) -> Option<Provider> {
    if begins(model, "zhipu/"@) {
        Some(Provider::Zhipu)
    } else if begins(model, "spark/"@) {
        Some(Provider::Spark)
    } else if begins(model, "siliconflow/"@) {
        Some(Provider::Siliconflow)
    } else if begins(model, "gitee-ai/"@) {
        Some(Provider::Gitee)
    } else if begins(model, "workers-ai-tts/"@) {
        Some(Provider::WorkersAiTts)
    } else if begins(model, "workers-ai/"@) {
        Some(Provider::WorkersAi)
    } else if begins(model, "acu/"@) {
        Some(Provider::Acu)
    } else {
        None
    }
}

/// The provider that serves the models of an owner.
pub open spec fn owner_provider(owner: Seq<char>) -> Provider {
    if owner == "gitee-ai"@ {
        Provider::Gitee
    } else if owner == "siliconflow"@ {
        Provider::Siliconflow
    } else if owner == "zhipu"@ {
        Provider::Zhipu
    } else if owner == "spark"@ {
        Provider::Spark
    } else if owner == "workers-ai"@ {
        Provider::WorkersAi
    } else if owner == "workers-ai-tts"@ {
        Provider::WorkersAiTts
    } else if owner == "acu"@ {
        Provider::Acu
    } else {
        Provider::Nvidia
    }
}

/// The provider of a model: the one that its name asks for, else the one that
/// serves its owner in the catalogue, else Nvidia.
pub open spec fn provider(model: Seq<char>) -> Provider {
    match named_provider(model) {
        Some(p) => p,
        None => {
            let line = catalog_line(model, 0);
            if line < CATALOG_LEN {
                owner_provider(catalog_owner(line))
            } else {
                Provider::Nvidia
            }
        },
    }
}

/// Chooses the provider that serves the models of an owner.
fn provider_of_owner(owner: &str) -> (r: Provider)
    ensures
        r == owner_provider(owner@),
{
    if *owner == *"gitee-ai" {
        Provider::Gitee
    } else if *owner == *"siliconflow" {
        Provider::Siliconflow
    } else if *owner == *"zhipu" {
        Provider::Zhipu
    } else if *owner == *"spark" {
        Provider::Spark
    } else if *owner == *"workers-ai" {
        Provider::WorkersAi
    } else if *owner == *"workers-ai-tts" {
        Provider::WorkersAiTts
    } else if *owner == *"acu" {
        Provider::Acu
    } else {
        Provider::Nvidia
    }
}

/// Chooses the provider of a model.
pub fn provider_of(model: &str) -> (r: Provider)
    ensures
        r == provider(model@),
{
    if starts_with(model, "zhipu/") {
        return Provider::Zhipu;
    }
    if starts_with(model, "spark/") {
        return Provider::Spark;
    }
    if starts_with(model, "siliconflow/") {
        return Provider::Siliconflow;
    }
    if starts_with(model, "gitee-ai/") {
        return Provider::Gitee;
    }
    if starts_with(model, "workers-ai-tts/") {
        return Provider::WorkersAiTts;
    }
    if starts_with(model, "workers-ai/") {
        return Provider::WorkersAi;
    }
    if starts_with(model, "acu/") {
        return Provider::Acu;
    }
    let mut i: usize = 0;
    while i < CATALOG_LEN
        invariant
            i <= CATALOG_LEN,
            named_provider(model@) is None,
            catalog_line(model@, 0) == catalog_line(model@, i as int),
        decreases CATALOG_LEN - i,
    {
        if *MODEL_CATALOG[i].0 == *model {
            return provider_of_owner(MODEL_CATALOG[i].1);
        }
        i += 1;
    }
    Provider::Nvidia
}

/// Each provider is logged under its own name.
pub proof fn law_providers_have_their_names()
    ensures
        Provider::Nvidia.name() == "nvidia"@,
        Provider::Gitee.name() == "gitee"@,
        Provider::Siliconflow.name() == "siliconflow"@,
        Provider::Zhipu.name() == "zhipu"@,
        Provider::Spark.name() == "spark"@,
        Provider::WorkersAi.name() == "workers-ai"@,
        Provider::WorkersAiTts.name() == "workers-ai-tts"@,
        Provider::Acu.name() == "acu"@,
{
}

} // verus!
