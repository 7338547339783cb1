//! The services that a model can be asked for.
use vstd::prelude::*;

verus! {

/// A service that a model can be asked for.
#[derive(Clone, Copy, Debug, PartialEq, Eq, Structural)]
pub enum Service {
    Chat,
    Speech,
    Embeddings,
    Moderations,
    Images,
    Videos,
    Rerank,
}

impl Service {
    /// The path of a service below the place of an upstream.
    pub open spec fn path(self) -> Seq<char> {
        match self {
            Service::Chat => "/chat/completions"@,
            Service::Speech => "/audio/speech"@,
            Service::Embeddings => "/embeddings"@,
            Service::Moderations => "/moderations"@,
            Service::Images => "/images/generations"@,
            Service::Videos => "/videos/generations"@,
            Service::Rerank => "/rerank"@,
        }
    }

    /// The path of a service below the place of an upstream.
    pub fn location(self) -> (r: &'static str)
        ensures
            r@ == self.path(),
    {
        match self {
            Service::Chat => "/chat/completions",
            Service::Speech => "/audio/speech",
            Service::Embeddings => "/embeddings",
            Service::Moderations => "/moderations",
            Service::Images => "/images/generations",
            Service::Videos => "/videos/generations",
            Service::Rerank => "/rerank",
        }
    }
}

/// Each service has the path under which it is known everywhere, and no two share one.
pub proof fn law_services_have_their_paths()
    ensures
        Service::Chat.path() == "/chat/completions"@,
        Service::Speech.path() == "/audio/speech"@,
        Service::Embeddings.path() == "/embeddings"@,
        Service::Moderations.path() == "/moderations"@,
        Service::Images.path() == "/images/generations"@,
        Service::Videos.path() == "/videos/generations"@,
        Service::Rerank.path() == "/rerank"@,
        forall|a: Service, b: Service| #![auto] a.path() == b.path() ==> a == b,
{
    lemma_paths_differ();
}

/// The paths are told apart by their texts.
proof fn lemma_paths_differ()
    ensures
        "/rerank"@.len() == 7,
        "/embeddings"@.len() == 11,
        "/moderations"@.len() == 12,
        "/audio/speech"@.len() == 13,
        "/chat/completions"@.len() == 17,
        "/images/generations"@.len() == 19 && "/images/generations"@[1] == 'i',
        "/videos/generations"@.len() == 19 && "/videos/generations"@[1] == 'v',
{
    reveal_strlit("/chat/completions");
    reveal_strlit("/audio/speech");
    reveal_strlit("/embeddings");
    reveal_strlit("/moderations");
    reveal_strlit("/images/generations");
    reveal_strlit("/videos/generations");
    reveal_strlit("/rerank");
}

} // verus!
