//! Laws of the catalogue: which provider serves which model.
use crate::catalog::{
    CATALOG_LEN, Provider, catalog_id, catalog_line, catalog_owner, named_provider, owner_provider,
    provider,
};
use crate::text::begins;
use vstd::prelude::*;

verus! {

// ---------------------------------------------------------------------------
// Names
// ---------------------------------------------------------------------------
/// A model whose name begins with a provider's prefix is served by that provider,
/// whatever the catalogue says.
pub proof fn law_prefix_decides(model: Seq<char>)
    ensures
        begins(model, "zhipu/"@) ==> provider(model) == Provider::Zhipu,
        begins(model, "spark/"@) ==> provider(model) == Provider::Spark,
        begins(model, "siliconflow/"@) ==> provider(model) == Provider::Siliconflow,
        begins(model, "gitee-ai/"@) ==> provider(model) == Provider::Gitee,
        begins(model, "workers-ai-tts/"@) ==> provider(model) == Provider::WorkersAiTts,
        begins(model, "workers-ai/"@) ==> provider(model) == Provider::WorkersAi,
        begins(model, "acu/"@) ==> provider(model) == Provider::Acu,
{
    lemma_prefixes_differ(model);
}

/// The first characters of a name that begins with a prefix are those of the prefix.
proof fn lemma_begins(model: Seq<char>, prefix: Seq<char>, k: int)
    requires
        begins(model, prefix),
        0 <= k < prefix.len(),
    ensures
        model[k] == prefix[k],
{
    assert(model.take(prefix.len() as int)[k] == model[k]);
}

/// No name begins with the prefixes of two providers.
proof fn lemma_prefixes_differ(model: Seq<char>)
    ensures
        begins(model, "zhipu/"@) ==> model[0] == 'z',
        begins(model, "spark/"@) ==> model[0] == 's' && model[1] == 'p',
        begins(model, "siliconflow/"@) ==> model[0] == 's' && model[1] == 'i',
        begins(model, "gitee-ai/"@) ==> model[0] == 'g',
        begins(model, "workers-ai-tts/"@) ==> model[0] == 'w' && model[10] == '-',
        begins(model, "workers-ai/"@) ==> model[0] == 'w' && model[10] == '/',
        begins(model, "acu/"@) ==> model[0] == 'a',
        begins(model, "nvidia/"@) ==> model[0] == 'n' && model[1] == 'v',
{
    reveal_strlit("zhipu/");
    reveal_strlit("spark/");
    reveal_strlit("siliconflow/");
    reveal_strlit("gitee-ai/");
    reveal_strlit("workers-ai-tts/");
    reveal_strlit("workers-ai/");
    reveal_strlit("acu/");
    reveal_strlit("nvidia/");
    if begins(model, "zhipu/"@) {
        lemma_begins(model, "zhipu/"@, 0);
    }
    if begins(model, "spark/"@) {
        lemma_begins(model, "spark/"@, 0);
        lemma_begins(model, "spark/"@, 1);
    }
    if begins(model, "siliconflow/"@) {
        lemma_begins(model, "siliconflow/"@, 0);
        lemma_begins(model, "siliconflow/"@, 1);
    }
    if begins(model, "gitee-ai/"@) {
        lemma_begins(model, "gitee-ai/"@, 0);
    }
    if begins(model, "workers-ai-tts/"@) {
        lemma_begins(model, "workers-ai-tts/"@, 0);
        lemma_begins(model, "workers-ai-tts/"@, 10);
    }
    if begins(model, "workers-ai/"@) {
        lemma_begins(model, "workers-ai/"@, 0);
        lemma_begins(model, "workers-ai/"@, 10);
    }
    if begins(model, "acu/"@) {
        lemma_begins(model, "acu/"@, 0);
    }
    if begins(model, "nvidia/"@) {
        lemma_begins(model, "nvidia/"@, 0);
        lemma_begins(model, "nvidia/"@, 1);
    }
}

/// The line that is found for a model names it, and no line before it does.
proof fn lemma_catalog_line(model: Seq<char>, from: int)
    requires
        0 <= from <= CATALOG_LEN,
    ensures
        from <= catalog_line(model, from) <= CATALOG_LEN,
        catalog_line(model, from) < CATALOG_LEN ==> catalog_id(catalog_line(model, from)) == model,
        forall|i: int|
            from <= i < catalog_line(model, from) ==> #[trigger] catalog_id(i) != model,
    decreases CATALOG_LEN - from,
{
    if from < CATALOG_LEN && catalog_id(from) != model {
        lemma_catalog_line(model, from + 1);
    }
}

/// A model without a provider's prefix that the catalogue does not list is served by
/// Nvidia.
pub proof fn law_unlisted_models_go_to_nvidia(model: Seq<char>)
    requires
        named_provider(model) is None,
        forall|i: int| 0 <= i < CATALOG_LEN ==> #[trigger] catalog_id(i) != model,
    ensures
        provider(model) == Provider::Nvidia,
{
    lemma_catalog_line(model, 0);
}

// ---------------------------------------------------------------------------
// The catalogue
// ---------------------------------------------------------------------------
/// The start of a name that the catalogue gives to a model of SiliconFlow.
spec fn siliconflow_start(id: Seq<char>) -> bool {
    id[0] == 'B' || id[0] == 'F' || id[0] == 'P' || id[0] == 'T' || id[0] == 't' || (id[0] == 'Q'
        && id[4] == '/')
}

/// The start of a name that the catalogue gives to a model of Gitee.
spec fn gitee_start(id: Seq<char>) -> bool {
    id[0] == 'D' || id[0] == 'G' || id[0] == 'H' || id[0] == 'L' || id[0] == 'Q' || id[0] == 'S' || (
    id[0] == 'b' && (id[1] == 'c' || id[1] == 'g')) || (id[0] == 'g' && id[1] == 'l') || (id[0]
        == 'i' && (id[1] == 'n' || id[1] == 'p')) || (id[0] == 'n' && (id[1] == 'o' || id[1]
        == 's'))
}

/// The provider that the start of a name in the catalogue tells.
spec fn start_provider(id: Seq<char>) -> Provider {
    if siliconflow_start(id) {
        Provider::Siliconflow
    } else if gitee_start(id) {
        Provider::Gitee
    } else {
        Provider::Nvidia
    }
}

/// A line of the catalogue has a name, which tells the provider by a prefix or by its start.
spec fn follows_name(i: int) -> bool {
    &&& catalog_id(i).len() > 0
    &&& named_provider(catalog_id(i)) is Some || owner_provider(catalog_owner(i))
        == start_provider(catalog_id(i))
}

/// The owners that have a provider of their own are told apart by their names.
proof fn lemma_owner_names()
    ensures
        "gitee-ai"@.len() == 8 && "gitee-ai"@[0] == 'g' && "gitee-ai"@[1] == 'i',
        "siliconflow"@.len() == 11 && "siliconflow"@[0] == 's' && "siliconflow"@[1] == 'i',
        "zhipu"@.len() == 5 && "zhipu"@[0] == 'z',
        "spark"@.len() == 5 && "spark"@[0] == 's' && "spark"@[1] == 'p',
        "workers-ai"@.len() == 10 && "workers-ai"@[0] == 'w' && "workers-ai"@[1] == 'o',
        "workers-ai-tts"@.len() == 14 && "workers-ai-tts"@[0] == 'w',
        "acu"@.len() == 3 && "acu"@[0] == 'a',
{
    reveal_strlit("gitee-ai");
    reveal_strlit("siliconflow");
    reveal_strlit("zhipu");
    reveal_strlit("spark");
    reveal_strlit("workers-ai");
    reveal_strlit("workers-ai-tts");
    reveal_strlit("acu");
}

/// What holds of a line of the catalogue holds of the lines from 0 to 0.
proof fn lemma_lines_from_0(i: int)
    requires
        0 <= i < 1,
    ensures
        follows_name(i),
{
    reveal_strlit("01-ai/yi-large");
    reveal_strlit("01-ai");
    lemma_owner_names();
}

/// What holds of a line of the catalogue holds of the lines from 1 to 1.
proof fn lemma_lines_from_1(i: int)
    requires
        1 <= i < 2,
    ensures
        follows_name(i),
{
    reveal_strlit("acu/deepseek-v4-flash");
    reveal_strlit("acu/");
    assert(catalog_id(i).take("acu/"@.len() as int) =~= "acu/"@);
}

/// What holds of a line of the catalogue holds of the lines from 2 to 9.
proof fn lemma_lines_from_2(i: int)
    requires
        2 <= i < 10,
    ensures
        follows_name(i),
{
    reveal_strlit("adept/fuyu-8b");
    reveal_strlit("ai21labs/jamba-1.5-large-instruct");
    reveal_strlit("aisingapore/sea-lion-7b-instruct");
    reveal_strlit("bigcode/starcoder2-15b");
    reveal_strlit("databricks/dbrx-instruct");
    reveal_strlit("deepseek-ai/deepseek-coder-6.7b-instruct");
    reveal_strlit("deepseek-ai/deepseek-v4-flash-0731");
    reveal_strlit("deepseek-ai/deepseek-v4-pro-0813");
    reveal_strlit("adept");
    reveal_strlit("ai21labs");
    reveal_strlit("aisingapore");
    reveal_strlit("bigcode");
    reveal_strlit("databricks");
    reveal_strlit("deepseek-ai");
    lemma_owner_names();
}

/// What holds of a line of the catalogue holds of the lines from 10 to 36.
proof fn lemma_lines_from_10(i: int)
    requires
        10 <= i < 37,
    ensures
        follows_name(i),
{
    reveal_strlit("DeepSeek-Prover-V2-7B");
    reveal_strlit("DeepSeek-R1-Distill-Qwen-1.5B");
    reveal_strlit("DeepSeek-R1-Distill-Qwen-14B");
    reveal_strlit("DeepSeek-R1-Distill-Qwen-7B");
    reveal_strlit("GLM-4-9B-0414");
    reveal_strlit("GLM-ASR");
    reveal_strlit("HealthGPT-L14");
    reveal_strlit("HuatuoGPT-o1-7B");
    reveal_strlit("Lingshu-32B");
    reveal_strlit("Qwen2-7B-Instruct");
    reveal_strlit("Qwen3-0.6B");
    reveal_strlit("Qwen3-4B");
    reveal_strlit("Qwen3-8B");
    reveal_strlit("Qwen3-Embedding-4B");
    reveal_strlit("Qwen3-Reranker-0.6B");
    reveal_strlit("Qwen3-Reranker-4B");
    reveal_strlit("Qwen3Guard-Gen-0.6B");
    reveal_strlit("Security-semantic-filtering");
    reveal_strlit("SenseVoiceSmall");
    reveal_strlit("Spark-TTS-0.5B");
    reveal_strlit("bce-reranker-base_v1");
    reveal_strlit("bge-reranker-v2-m3");
    reveal_strlit("glm-4-9b-chat");
    reveal_strlit("internlm3-8b-instruct");
    reveal_strlit("ip-location");
    reveal_strlit("nonescape-v0");
    reveal_strlit("nsfw-classifier");
    reveal_strlit("gitee-ai");
    lemma_owner_names();
}

/// What holds of a line of the catalogue holds of the lines from 37 to 68.
proof fn lemma_lines_from_37(i: int)
    requires
        37 <= i < 69,
    ensures
        follows_name(i),
{
    reveal_strlit("google/codegemma-1.1-7b");
    reveal_strlit("google/codegemma-7b");
    reveal_strlit("google/deplot");
    reveal_strlit("google/diffusiongemma-26b-a4b-it");
    reveal_strlit("google/gemma-2b");
    reveal_strlit("google/gemma-3-12b-it");
    reveal_strlit("google/gemma-3-4b-it");
    reveal_strlit("google/gemma-4-31b-it");
    reveal_strlit("google/recurrentgemma-2b");
    reveal_strlit("ibm/granite-3.0-3b-a800m-instruct");
    reveal_strlit("ibm/granite-3.0-8b-instruct");
    reveal_strlit("ibm/granite-34b-code-instruct");
    reveal_strlit("ibm/granite-8b-code-instruct");
    reveal_strlit("meta/codellama-70b");
    reveal_strlit("meta/llama-3.2-11b-vision-instruct");
    reveal_strlit("meta/llama-3.2-90b-vision-instruct");
    reveal_strlit("meta/llama-guard-4-12b");
    reveal_strlit("meta/llama2-70b");
    reveal_strlit("meta/muse-glimmer-30b");
    reveal_strlit("microsoft/kosmos-2");
    reveal_strlit("microsoft/phi-3-vision-128k-instruct");
    reveal_strlit("microsoft/phi-3.5-moe-instruct");
    reveal_strlit("minimaxai/minimax-m3");
    reveal_strlit("mistralai/codestral-22b-instruct-v0.1");
    reveal_strlit("mistralai/mistral-7b-instruct-v0.3");
    reveal_strlit("mistralai/mistral-large");
    reveal_strlit("mistralai/mistral-large-2-instruct");
    reveal_strlit("mistralai/mistral-nemotron");
    reveal_strlit("mistralai/mixtral-8x22b-v0.1");
    reveal_strlit("moonshotai/kimi-k2.6");
    reveal_strlit("moonshotai/kimi-k3");
    reveal_strlit("nv-mistralai/mistral-nemo-12b-instruct");
    reveal_strlit("google");
    reveal_strlit("ibm");
    reveal_strlit("meta");
    reveal_strlit("microsoft");
    reveal_strlit("minimaxai");
    reveal_strlit("mistralai");
    reveal_strlit("moonshotai");
    reveal_strlit("nv-mistralai");
    lemma_owner_names();
}

/// What holds of a line of the catalogue holds of the lines from 69 to 101.
proof fn lemma_lines_from_69(i: int)
    requires
        69 <= i < 102,
    ensures
        follows_name(i),
{
    reveal_strlit("nvidia/ai-synthetic-video-detector");
    reveal_strlit("nvidia/cosmos-reason2-8b");
    reveal_strlit("nvidia/embed-qa-4");
    reveal_strlit("nvidia/ising-calibration-1.5-31b");
    reveal_strlit("nvidia/llama-3.1-nemoguard-8b-content-safety");
    reveal_strlit("nvidia/llama-3.1-nemoguard-8b-topic-control");
    reveal_strlit("nvidia/llama-3.1-nemotron-51b-instruct");
    reveal_strlit("nvidia/llama-3.1-nemotron-70b-instruct");
    reveal_strlit("nvidia/llama-3.1-nemotron-safety-guard-8b-v3");
    reveal_strlit("nvidia/llama-3.1-nemotron-ultra-253b-v1");
    reveal_strlit("nvidia/llama-3.2-nemoretriever-1b-vlm-embed-v1");
    reveal_strlit("nvidia/llama-3.2-nv-embedqa-1b-v1");
    reveal_strlit("nvidia/llama-nemotron-embed-vl-1b-v2");
    reveal_strlit("nvidia/llama3-chatqa-1.5-70b");
    reveal_strlit("nvidia/mistral-nemo-minitron-8b-8k-instruct");
    reveal_strlit("nvidia/nemotron-3-embed-1b");
    reveal_strlit("nvidia/nemotron-3-nano-30b-a3b");
    reveal_strlit("nvidia/nemotron-3-nano-omni-30b-a3b-reasoning");
    reveal_strlit("nvidia/nemotron-3-super-120b-a12b");
    reveal_strlit("nvidia/nemotron-3-ultra-550b-a55b");
    reveal_strlit("nvidia/nemotron-3.5-content-safety");
    reveal_strlit("nvidia/nemotron-3.5-lightning-30b-a3b");
    reveal_strlit("nvidia/nemotron-4-340b-instruct");
    reveal_strlit("nvidia/nemotron-4-340b-reward");
    reveal_strlit("nvidia/nemotron-nano-3-30b-a3b");
    reveal_strlit("nvidia/nemotron-parse");
    reveal_strlit("nvidia/neva-22b");
    reveal_strlit("nvidia/nv-embedqa-mistral-7b-v2");
    reveal_strlit("nvidia/nvclip");
    reveal_strlit("nvidia/riva-translate-4b-instruct");
    reveal_strlit("nvidia/riva-translate-4b-instruct-v1.1");
    reveal_strlit("nvidia/riva-translate-4b-instruct-v2");
    reveal_strlit("nvidia/vila");
    reveal_strlit("nvidia");
    lemma_owner_names();
}

/// What holds of a line of the catalogue holds of the lines from 102 to 104.
proof fn lemma_lines_from_102(i: int)
    requires
        102 <= i < 105,
    ensures
        follows_name(i),
{
    reveal_strlit("openai/gpt-oss-120b");
    reveal_strlit("openai/gpt-oss-20b");
    reveal_strlit("poolside/laguna-xs-2.1");
    reveal_strlit("openai");
    reveal_strlit("poolside");
    lemma_owner_names();
}

/// What holds of a line of the catalogue holds of the lines from 105 to 116.
proof fn lemma_lines_from_105(i: int)
    requires
        105 <= i < 117,
    ensures
        follows_name(i),
{
    reveal_strlit("BAAI/bge-large-en-v1.5");
    reveal_strlit("BAAI/bge-large-zh-v1.5");
    reveal_strlit("BAAI/bge-m3");
    reveal_strlit("BAAI/bge-reranker-v2-m3");
    reveal_strlit("FunAudioLLM/SenseVoiceSmall");
    reveal_strlit("PaddlePaddle/PaddleOCR-VL-1.5");
    reveal_strlit("Qwen/Qwen3-ASR-1.7B");
    reveal_strlit("THUDM/GLM-4-9B-0414");
    reveal_strlit("THUDM/GLM-Z1-9B-0414");
    reveal_strlit("TeleAI/TeleSpeechASR");
    reveal_strlit("tencent/Hunyuan-MT-7B");
    reveal_strlit("snowflake/arctic-embed-l");
    reveal_strlit("siliconflow");
    reveal_strlit("snowflake");
    lemma_owner_names();
}

/// What holds of a line of the catalogue holds of the lines from 117 to 117.
proof fn lemma_lines_from_117(i: int)
    requires
        117 <= i < 118,
    ensures
        follows_name(i),
{
    reveal_strlit("spark/spark-lite");
    reveal_strlit("spark/");
    assert(catalog_id(i).take("spark/"@.len() as int) =~= "spark/"@);
}

/// What holds of a line of the catalogue holds of the lines from 118 to 129.
proof fn lemma_lines_from_118(i: int)
    requires
        118 <= i < 130,
    ensures
        follows_name(i),
{
    reveal_strlit("workers-ai/deepseek-r1-32b");
    reveal_strlit("workers-ai/gemma-3-12b");
    reveal_strlit("workers-ai/llama-3.1-8b");
    reveal_strlit("workers-ai/llama-3.2-1b");
    reveal_strlit("workers-ai/llama-3.2-3b");
    reveal_strlit("workers-ai/llama-3.3-70b");
    reveal_strlit("workers-ai/mistral-7b");
    reveal_strlit("workers-ai/mistral-small-24b");
    reveal_strlit("workers-ai/qwen1.5-7b");
    reveal_strlit("workers-ai/qwen2.5-coder-32b");
    reveal_strlit("workers-ai/qwq-32b");
    reveal_strlit("workers-ai/melotts");
    reveal_strlit("workers-ai/");
    assert(catalog_id(i).take("workers-ai/"@.len() as int) =~= "workers-ai/"@);
}

/// What holds of a line of the catalogue holds of the lines from 130 to 133.
proof fn lemma_lines_from_130(i: int)
    requires
        130 <= i < 134,
    ensures
        follows_name(i),
{
    reveal_strlit("writer/palmyra-creative-122b");
    reveal_strlit("writer/palmyra-fin-70b-32k");
    reveal_strlit("writer/palmyra-med-70b");
    reveal_strlit("writer/palmyra-med-70b-32k");
    reveal_strlit("writer");
    lemma_owner_names();
}

/// What holds of a line of the catalogue holds of the lines from 134 to 142.
proof fn lemma_lines_from_134(i: int)
    requires
        134 <= i < 143,
    ensures
        follows_name(i),
{
    reveal_strlit("zhipu/cogvideox-flash");
    reveal_strlit("zhipu/cogview-3-flash");
    reveal_strlit("zhipu/glm-4-flash");
    reveal_strlit("zhipu/glm-4-flash-250414");
    reveal_strlit("zhipu/glm-4.1v-thinking-flash");
    reveal_strlit("zhipu/glm-4.6v-flash");
    reveal_strlit("zhipu/glm-4.7-flash");
    reveal_strlit("zhipu/glm-4v-flash");
    reveal_strlit("zhipu/glm-z1-flash");
    reveal_strlit("zhipu/");
    assert(catalog_id(i).take("zhipu/"@.len() as int) =~= "zhipu/"@);
}

/// What holds of a line of the catalogue holds of the lines from 143 to 143.
proof fn lemma_lines_from_143(i: int)
    requires
        143 <= i < 144,
    ensures
        follows_name(i),
{
    reveal_strlit("zyphra/zamba2-7b-instruct");
    reveal_strlit("zyphra");
    lemma_owner_names();
}

/// The name in a line of the catalogue tells the provider.
proof fn lemma_line_follows_name(i: int)
    requires
        0 <= i < CATALOG_LEN,
    ensures
        follows_name(i),
{
    if i < 1 {
        lemma_lines_from_0(i);
    } else if i < 2 {
        lemma_lines_from_1(i);
    } else if i < 10 {
        lemma_lines_from_2(i);
    } else if i < 37 {
        lemma_lines_from_10(i);
    } else if i < 69 {
        lemma_lines_from_37(i);
    } else if i < 102 {
        lemma_lines_from_69(i);
    } else if i < 105 {
        lemma_lines_from_102(i);
    } else if i < 117 {
        lemma_lines_from_105(i);
    } else if i < 118 {
        lemma_lines_from_117(i);
    } else if i < 130 {
        lemma_lines_from_118(i);
    } else if i < 134 {
        lemma_lines_from_130(i);
    } else if i < 143 {
        lemma_lines_from_134(i);
    } else {
        lemma_lines_from_143(i);
    }
}

/// A model of the catalogue without a provider's prefix is served by the provider of its
/// owner.
pub proof fn law_owner_decides(i: int)
    requires
        0 <= i < CATALOG_LEN,
        named_provider(catalog_id(i)) is None,
    ensures
        provider(catalog_id(i)) == owner_provider(catalog_owner(i)),
{
    let line = catalog_line(catalog_id(i), 0);
    lemma_catalog_line(catalog_id(i), 0);
    lemma_line_follows_name(i);
    lemma_line_follows_name(line);
}

/// Nvidia serves no model of the catalogue that Workers AI owns.
pub proof fn law_nvidia_serves_none_of_workers_ai(i: int)
    requires
        0 <= i < CATALOG_LEN,
        catalog_owner(i) == "workers-ai"@,
    ensures
        provider(catalog_id(i)) != Provider::Nvidia,
{
    lemma_owner_names();
    if named_provider(catalog_id(i)) is None {
        law_owner_decides(i);
    }
}

/// A request that names no model is one for Nvidia.
pub proof fn law_no_name_goes_to_nvidia()
    ensures
        provider(Seq::empty()) == Provider::Nvidia,
{
    let none = Seq::<char>::empty();
    reveal_strlit("zhipu/");
    reveal_strlit("spark/");
    reveal_strlit("siliconflow/");
    reveal_strlit("gitee-ai/");
    reveal_strlit("workers-ai-tts/");
    reveal_strlit("workers-ai/");
    reveal_strlit("acu/");
    lemma_catalog_line(none, 0);
    if catalog_line(none, 0) < CATALOG_LEN {
        lemma_line_follows_name(catalog_line(none, 0));
    }
}

/// A model whose name begins with Nvidia's own prefix is served by Nvidia, whether the
/// catalogue lists it or not.
pub proof fn law_nvidia_prefix_goes_to_nvidia(model: Seq<char>)
    requires
        begins(model, "nvidia/"@),
    ensures
        provider(model) == Provider::Nvidia,
{
    let line = catalog_line(model, 0);
    lemma_prefixes_differ(model);
    lemma_catalog_line(model, 0);
    if line < CATALOG_LEN {
        lemma_line_follows_name(line);
    }
}

/// Seven owners have a provider of their own, and all others are served by Nvidia.
pub proof fn law_owners_have_their_providers(owner: Seq<char>)
    ensures
        owner_provider("gitee-ai"@) == Provider::Gitee,
        owner_provider("siliconflow"@) == Provider::Siliconflow,
        owner_provider("zhipu"@) == Provider::Zhipu,
        owner_provider("spark"@) == Provider::Spark,
        owner_provider("workers-ai"@) == Provider::WorkersAi,
        owner_provider("workers-ai-tts"@) == Provider::WorkersAiTts,
        owner_provider("acu"@) == Provider::Acu,
        owner != "gitee-ai"@ && owner != "siliconflow"@ && owner != "zhipu"@ && owner != "spark"@
            && owner != "workers-ai"@ && owner != "workers-ai-tts"@ && owner != "acu"@
            ==> owner_provider(owner) == Provider::Nvidia,
{
    lemma_owner_names();
    reveal_strlit("workers-ai");
    reveal_strlit("workers-ai-tts");
}

/// A name asks for a provider exactly where it begins with one of the seven prefixes.
pub proof fn law_seven_prefixes(model: Seq<char>)
    ensures
        named_provider(model) is Some <==> begins(model, "zhipu/"@) || begins(model, "spark/"@)
            || begins(model, "siliconflow/"@) || begins(model, "gitee-ai/"@) || begins(
            model,
            "workers-ai-tts/"@,
        ) || begins(model, "workers-ai/"@) || begins(model, "acu/"@),
{
}

/// The name in a line of the catalogue is the owner's, a slash, and the model's own.
spec fn named_by_owner(i: int) -> bool {
    let n = catalog_owner(i).len() as int;
    n < catalog_id(i).len() && catalog_id(i).take(n) == catalog_owner(i) && catalog_id(i)[n] == '/'
}

/// The lines from 0 to 0 are those of one owner.
proof fn lemma_owner_from_0(i: int)
    requires
        0 <= i < 1,
    ensures
        named_by_owner(i),
{
    reveal_strlit("01-ai");
    reveal_strlit("01-ai/yi-large");
    assert(catalog_owner(i) == "01-ai"@);
    assert(catalog_id(i).take(5) =~= "01-ai"@);
}

/// The lines from 1 to 1 are those of one owner.
proof fn lemma_owner_from_1(i: int)
    requires
        1 <= i < 2,
    ensures
        named_by_owner(i),
{
    reveal_strlit("acu");
    reveal_strlit("acu/deepseek-v4-flash");
    assert(catalog_owner(i) == "acu"@);
    assert(catalog_id(i).take(3) =~= "acu"@);
}

/// The lines from 2 to 2 are those of one owner.
proof fn lemma_owner_from_2(i: int)
    requires
        2 <= i < 3,
    ensures
        named_by_owner(i),
{
    reveal_strlit("adept");
    reveal_strlit("adept/fuyu-8b");
    assert(catalog_owner(i) == "adept"@);
    assert(catalog_id(i).take(5) =~= "adept"@);
}

/// The lines from 3 to 3 are those of one owner.
proof fn lemma_owner_from_3(i: int)
    requires
        3 <= i < 4,
    ensures
        named_by_owner(i),
{
    reveal_strlit("ai21labs");
    reveal_strlit("ai21labs/jamba-1.5-large-instruct");
    assert(catalog_owner(i) == "ai21labs"@);
    assert(catalog_id(i).take(8) =~= "ai21labs"@);
}

/// The lines from 4 to 4 are those of one owner.
proof fn lemma_owner_from_4(i: int)
    requires
        4 <= i < 5,
    ensures
        named_by_owner(i),
{
    reveal_strlit("aisingapore");
    reveal_strlit("aisingapore/sea-lion-7b-instruct");
    assert(catalog_owner(i) == "aisingapore"@);
    assert(catalog_id(i).take(11) =~= "aisingapore"@);
}

/// The lines from 5 to 5 are those of one owner.
proof fn lemma_owner_from_5(i: int)
    requires
        5 <= i < 6,
    ensures
        named_by_owner(i),
{
    reveal_strlit("bigcode");
    reveal_strlit("bigcode/starcoder2-15b");
    assert(catalog_owner(i) == "bigcode"@);
    assert(catalog_id(i).take(7) =~= "bigcode"@);
}

/// The lines from 6 to 6 are those of one owner.
proof fn lemma_owner_from_6(i: int)
    requires
        6 <= i < 7,
    ensures
        named_by_owner(i),
{
    reveal_strlit("databricks");
    reveal_strlit("databricks/dbrx-instruct");
    assert(catalog_owner(i) == "databricks"@);
    assert(catalog_id(i).take(10) =~= "databricks"@);
}

/// The lines from 7 to 9 are those of one owner.
proof fn lemma_owner_from_7(i: int)
    requires
        7 <= i < 10,
    ensures
        named_by_owner(i),
{
    reveal_strlit("deepseek-ai");
    reveal_strlit("deepseek-ai/deepseek-coder-6.7b-instruct");
    reveal_strlit("deepseek-ai/deepseek-v4-flash-0731");
    reveal_strlit("deepseek-ai/deepseek-v4-pro-0813");
    assert(catalog_owner(i) == "deepseek-ai"@);
    assert(catalog_id(i).take(11) =~= "deepseek-ai"@);
}

/// The lines from 37 to 45 are those of one owner.
proof fn lemma_owner_from_37(i: int)
    requires
        37 <= i < 46,
    ensures
        named_by_owner(i),
{
    reveal_strlit("google");
    reveal_strlit("google/codegemma-1.1-7b");
    reveal_strlit("google/codegemma-7b");
    reveal_strlit("google/deplot");
    reveal_strlit("google/diffusiongemma-26b-a4b-it");
    reveal_strlit("google/gemma-2b");
    reveal_strlit("google/gemma-3-12b-it");
    reveal_strlit("google/gemma-3-4b-it");
    reveal_strlit("google/gemma-4-31b-it");
    reveal_strlit("google/recurrentgemma-2b");
    assert(catalog_owner(i) == "google"@);
    assert(catalog_id(i).take(6) =~= "google"@);
}

/// The lines from 46 to 49 are those of one owner.
proof fn lemma_owner_from_46(i: int)
    requires
        46 <= i < 50,
    ensures
        named_by_owner(i),
{
    reveal_strlit("ibm");
    reveal_strlit("ibm/granite-3.0-3b-a800m-instruct");
    reveal_strlit("ibm/granite-3.0-8b-instruct");
    reveal_strlit("ibm/granite-34b-code-instruct");
    reveal_strlit("ibm/granite-8b-code-instruct");
    assert(catalog_owner(i) == "ibm"@);
    assert(catalog_id(i).take(3) =~= "ibm"@);
}

/// The lines from 50 to 55 are those of one owner.
proof fn lemma_owner_from_50(i: int)
    requires
        50 <= i < 56,
    ensures
        named_by_owner(i),
{
    reveal_strlit("meta");
    reveal_strlit("meta/codellama-70b");
    reveal_strlit("meta/llama-3.2-11b-vision-instruct");
    reveal_strlit("meta/llama-3.2-90b-vision-instruct");
    reveal_strlit("meta/llama-guard-4-12b");
    reveal_strlit("meta/llama2-70b");
    reveal_strlit("meta/muse-glimmer-30b");
    assert(catalog_owner(i) == "meta"@);
    assert(catalog_id(i).take(4) =~= "meta"@);
}

/// The lines from 56 to 58 are those of one owner.
proof fn lemma_owner_from_56(i: int)
    requires
        56 <= i < 59,
    ensures
        named_by_owner(i),
{
    reveal_strlit("microsoft");
    reveal_strlit("microsoft/kosmos-2");
    reveal_strlit("microsoft/phi-3-vision-128k-instruct");
    reveal_strlit("microsoft/phi-3.5-moe-instruct");
    assert(catalog_owner(i) == "microsoft"@);
    assert(catalog_id(i).take(9) =~= "microsoft"@);
}

/// The lines from 59 to 59 are those of one owner.
proof fn lemma_owner_from_59(i: int)
    requires
        59 <= i < 60,
    ensures
        named_by_owner(i),
{
    reveal_strlit("minimaxai");
    reveal_strlit("minimaxai/minimax-m3");
    assert(catalog_owner(i) == "minimaxai"@);
    assert(catalog_id(i).take(9) =~= "minimaxai"@);
}

/// The lines from 60 to 65 are those of one owner.
proof fn lemma_owner_from_60(i: int)
    requires
        60 <= i < 66,
    ensures
        named_by_owner(i),
{
    reveal_strlit("mistralai");
    reveal_strlit("mistralai/codestral-22b-instruct-v0.1");
    reveal_strlit("mistralai/mistral-7b-instruct-v0.3");
    reveal_strlit("mistralai/mistral-large");
    reveal_strlit("mistralai/mistral-large-2-instruct");
    reveal_strlit("mistralai/mistral-nemotron");
    reveal_strlit("mistralai/mixtral-8x22b-v0.1");
    assert(catalog_owner(i) == "mistralai"@);
    assert(catalog_id(i).take(9) =~= "mistralai"@);
}

/// The lines from 66 to 67 are those of one owner.
proof fn lemma_owner_from_66(i: int)
    requires
        66 <= i < 68,
    ensures
        named_by_owner(i),
{
    reveal_strlit("moonshotai");
    reveal_strlit("moonshotai/kimi-k2.6");
    reveal_strlit("moonshotai/kimi-k3");
    assert(catalog_owner(i) == "moonshotai"@);
    assert(catalog_id(i).take(10) =~= "moonshotai"@);
}

/// The lines from 68 to 68 are those of one owner.
proof fn lemma_owner_from_68(i: int)
    requires
        68 <= i < 69,
    ensures
        named_by_owner(i),
{
    reveal_strlit("nv-mistralai");
    reveal_strlit("nv-mistralai/mistral-nemo-12b-instruct");
    assert(catalog_owner(i) == "nv-mistralai"@);
    assert(catalog_id(i).take(12) =~= "nv-mistralai"@);
}

/// The lines from 69 to 101 are those of one owner.
proof fn lemma_owner_from_69(i: int)
    requires
        69 <= i < 102,
    ensures
        named_by_owner(i),
{
    reveal_strlit("nvidia");
    reveal_strlit("nvidia/ai-synthetic-video-detector");
    reveal_strlit("nvidia/cosmos-reason2-8b");
    reveal_strlit("nvidia/embed-qa-4");
    reveal_strlit("nvidia/ising-calibration-1.5-31b");
    reveal_strlit("nvidia/llama-3.1-nemoguard-8b-content-safety");
    reveal_strlit("nvidia/llama-3.1-nemoguard-8b-topic-control");
    reveal_strlit("nvidia/llama-3.1-nemotron-51b-instruct");
    reveal_strlit("nvidia/llama-3.1-nemotron-70b-instruct");
    reveal_strlit("nvidia/llama-3.1-nemotron-safety-guard-8b-v3");
    reveal_strlit("nvidia/llama-3.1-nemotron-ultra-253b-v1");
    reveal_strlit("nvidia/llama-3.2-nemoretriever-1b-vlm-embed-v1");
    reveal_strlit("nvidia/llama-3.2-nv-embedqa-1b-v1");
    reveal_strlit("nvidia/llama-nemotron-embed-vl-1b-v2");
    reveal_strlit("nvidia/llama3-chatqa-1.5-70b");
    reveal_strlit("nvidia/mistral-nemo-minitron-8b-8k-instruct");
    reveal_strlit("nvidia/nemotron-3-embed-1b");
    reveal_strlit("nvidia/nemotron-3-nano-30b-a3b");
    reveal_strlit("nvidia/nemotron-3-nano-omni-30b-a3b-reasoning");
    reveal_strlit("nvidia/nemotron-3-super-120b-a12b");
    reveal_strlit("nvidia/nemotron-3-ultra-550b-a55b");
    reveal_strlit("nvidia/nemotron-3.5-content-safety");
    reveal_strlit("nvidia/nemotron-3.5-lightning-30b-a3b");
    reveal_strlit("nvidia/nemotron-4-340b-instruct");
    reveal_strlit("nvidia/nemotron-4-340b-reward");
    reveal_strlit("nvidia/nemotron-nano-3-30b-a3b");
    reveal_strlit("nvidia/nemotron-parse");
    reveal_strlit("nvidia/neva-22b");
    reveal_strlit("nvidia/nv-embedqa-mistral-7b-v2");
    reveal_strlit("nvidia/nvclip");
    reveal_strlit("nvidia/riva-translate-4b-instruct");
    reveal_strlit("nvidia/riva-translate-4b-instruct-v1.1");
    reveal_strlit("nvidia/riva-translate-4b-instruct-v2");
    reveal_strlit("nvidia/vila");
    assert(catalog_owner(i) == "nvidia"@);
    assert(catalog_id(i).take(6) =~= "nvidia"@);
}

/// The lines from 102 to 103 are those of one owner.
proof fn lemma_owner_from_102(i: int)
    requires
        102 <= i < 104,
    ensures
        named_by_owner(i),
{
    reveal_strlit("openai");
    reveal_strlit("openai/gpt-oss-120b");
    reveal_strlit("openai/gpt-oss-20b");
    assert(catalog_owner(i) == "openai"@);
    assert(catalog_id(i).take(6) =~= "openai"@);
}

/// The lines from 104 to 104 are those of one owner.
proof fn lemma_owner_from_104(i: int)
    requires
        104 <= i < 105,
    ensures
        named_by_owner(i),
{
    reveal_strlit("poolside");
    reveal_strlit("poolside/laguna-xs-2.1");
    assert(catalog_owner(i) == "poolside"@);
    assert(catalog_id(i).take(8) =~= "poolside"@);
}

/// The lines from 116 to 116 are those of one owner.
proof fn lemma_owner_from_116(i: int)
    requires
        116 <= i < 117,
    ensures
        named_by_owner(i),
{
    reveal_strlit("snowflake");
    reveal_strlit("snowflake/arctic-embed-l");
    assert(catalog_owner(i) == "snowflake"@);
    assert(catalog_id(i).take(9) =~= "snowflake"@);
}

/// The lines from 117 to 117 are those of one owner.
proof fn lemma_owner_from_117(i: int)
    requires
        117 <= i < 118,
    ensures
        named_by_owner(i),
{
    reveal_strlit("spark");
    reveal_strlit("spark/spark-lite");
    assert(catalog_owner(i) == "spark"@);
    assert(catalog_id(i).take(5) =~= "spark"@);
}

/// The lines from 118 to 128 are those of one owner.
proof fn lemma_owner_from_118(i: int)
    requires
        118 <= i < 129,
    ensures
        named_by_owner(i),
{
    reveal_strlit("workers-ai");
    reveal_strlit("workers-ai/deepseek-r1-32b");
    reveal_strlit("workers-ai/gemma-3-12b");
    reveal_strlit("workers-ai/llama-3.1-8b");
    reveal_strlit("workers-ai/llama-3.2-1b");
    reveal_strlit("workers-ai/llama-3.2-3b");
    reveal_strlit("workers-ai/llama-3.3-70b");
    reveal_strlit("workers-ai/mistral-7b");
    reveal_strlit("workers-ai/mistral-small-24b");
    reveal_strlit("workers-ai/qwen1.5-7b");
    reveal_strlit("workers-ai/qwen2.5-coder-32b");
    reveal_strlit("workers-ai/qwq-32b");
    assert(catalog_owner(i) == "workers-ai"@);
    assert(catalog_id(i).take(10) =~= "workers-ai"@);
}

/// The lines from 130 to 133 are those of one owner.
proof fn lemma_owner_from_130(i: int)
    requires
        130 <= i < 134,
    ensures
        named_by_owner(i),
{
    reveal_strlit("writer");
    reveal_strlit("writer/palmyra-creative-122b");
    reveal_strlit("writer/palmyra-fin-70b-32k");
    reveal_strlit("writer/palmyra-med-70b");
    reveal_strlit("writer/palmyra-med-70b-32k");
    assert(catalog_owner(i) == "writer"@);
    assert(catalog_id(i).take(6) =~= "writer"@);
}

/// The lines from 134 to 142 are those of one owner.
proof fn lemma_owner_from_134(i: int)
    requires
        134 <= i < 143,
    ensures
        named_by_owner(i),
{
    reveal_strlit("zhipu");
    reveal_strlit("zhipu/cogvideox-flash");
    reveal_strlit("zhipu/cogview-3-flash");
    reveal_strlit("zhipu/glm-4-flash");
    reveal_strlit("zhipu/glm-4-flash-250414");
    reveal_strlit("zhipu/glm-4.1v-thinking-flash");
    reveal_strlit("zhipu/glm-4.6v-flash");
    reveal_strlit("zhipu/glm-4.7-flash");
    reveal_strlit("zhipu/glm-4v-flash");
    reveal_strlit("zhipu/glm-z1-flash");
    assert(catalog_owner(i) == "zhipu"@);
    assert(catalog_id(i).take(5) =~= "zhipu"@);
}

/// The lines from 143 to 143 are those of one owner.
proof fn lemma_owner_from_143(i: int)
    requires
        143 <= i < 144,
    ensures
        named_by_owner(i),
{
    reveal_strlit("zyphra");
    reveal_strlit("zyphra/zamba2-7b-instruct");
    assert(catalog_owner(i) == "zyphra"@);
    assert(catalog_id(i).take(6) =~= "zyphra"@);
}

/// A model of the catalogue whose owner is neither Gitee nor SiliconFlow is listed under a
/// name that begins with its owner's, with one exception, which Workers AI owns under another
/// name.
pub proof fn law_names_begin_with_owners(i: int)
    requires
        0 <= i < CATALOG_LEN,
    ensures
        catalog_owner(i) == "gitee-ai"@ || catalog_owner(i) == "siliconflow"@ || (catalog_owner(i)
            == "workers-ai-tts"@ && catalog_id(i) == "workers-ai/melotts"@) || begins(
            catalog_id(i),
            catalog_owner(i).push('/'),
        ),
        catalog_owner(129) == "workers-ai-tts"@ && catalog_id(129) == "workers-ai/melotts"@,
{
    if 0 <= i < 1 {
        lemma_owner_from_0(i);
    } else if 1 <= i < 2 {
        lemma_owner_from_1(i);
    } else if 2 <= i < 3 {
        lemma_owner_from_2(i);
    } else if 3 <= i < 4 {
        lemma_owner_from_3(i);
    } else if 4 <= i < 5 {
        lemma_owner_from_4(i);
    } else if 5 <= i < 6 {
        lemma_owner_from_5(i);
    } else if 6 <= i < 7 {
        lemma_owner_from_6(i);
    } else if 7 <= i < 10 {
        lemma_owner_from_7(i);
    } else if 37 <= i < 46 {
        lemma_owner_from_37(i);
    } else if 46 <= i < 50 {
        lemma_owner_from_46(i);
    } else if 50 <= i < 56 {
        lemma_owner_from_50(i);
    } else if 56 <= i < 59 {
        lemma_owner_from_56(i);
    } else if 59 <= i < 60 {
        lemma_owner_from_59(i);
    } else if 60 <= i < 66 {
        lemma_owner_from_60(i);
    } else if 66 <= i < 68 {
        lemma_owner_from_66(i);
    } else if 68 <= i < 69 {
        lemma_owner_from_68(i);
    } else if 69 <= i < 102 {
        lemma_owner_from_69(i);
    } else if 102 <= i < 104 {
        lemma_owner_from_102(i);
    } else if 104 <= i < 105 {
        lemma_owner_from_104(i);
    } else if 116 <= i < 117 {
        lemma_owner_from_116(i);
    } else if 117 <= i < 118 {
        lemma_owner_from_117(i);
    } else if 118 <= i < 129 {
        lemma_owner_from_118(i);
    } else if 130 <= i < 134 {
        lemma_owner_from_130(i);
    } else if 134 <= i < 143 {
        lemma_owner_from_134(i);
    } else if 143 <= i < 144 {
        lemma_owner_from_143(i);
    }
    if named_by_owner(i) {
        let n = catalog_owner(i).len() as int;
        assert(catalog_id(i).take(n + 1) =~= catalog_owner(i).push('/'));
    }
}

} // verus!
