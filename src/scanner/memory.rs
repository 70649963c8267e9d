//! Memory backend, transcript retention, embedding model and search provider.

use vstd::prelude::*;
use crate::config::{at2, OpenClawConfig};
use crate::models::{finding_view, views, Finding, FindingView, Severity};
use crate::scanner::{add_when, present_if, Scanner};
use crate::text::{concat2, concat3, opt_is, or_empty, shown, starts_with_text, text_starts_with};
use crate::tree::{as_text, child, text_of};

verus! {

pub struct MemoryScanner;

pub open spec fn memory_rule(c: OpenClawConfig) -> Seq<FindingView> {
    let m = "memory"@;
    let backend = as_text(at2(c.raw, "memory", "backend"));
    let retention = as_text(at2(c.raw, "memory", "transcriptRetention"));
    let embedding = as_text(at2(c.raw, "memory", "embeddingModel"));
    let search = as_text(at2(c.raw, "memory", "searchProvider"));
    present_if(
        backend == Some("qmd"@),
        finding_view(
            "memory.qmd_backend"@,
            m,
            Severity::Medium,
            "QMD Memory Backend"@,
            "Using QMD (Query-Metadata-Description) memory backend"@,
            "May have different isolation characteristics than SQLite"@,
            "Review QMD security properties"@,
            "memory.backend"@,
        ),
    ) + present_if(
        retention == Some("forever"@) || retention == Some("infinite"@),
        finding_view(
            "memory.transcript_forever"@,
            m,
            Severity::Medium,
            "Unlimited Transcript Retention"@,
            "Transcript retention is '"@ + or_empty(retention) + "'"@,
            "Conversation history stored indefinitely"@,
            "Set to finite period (e.g., '30d')"@,
            "memory.transcriptRetention"@,
        ),
    ) + present_if(
        embedding matches Some(e) && !text_starts_with(e, "local:"@) && !text_starts_with(
            e,
            "ollama:"@,
        ),
        finding_view(
            "memory.external_embedding"@,
            m,
            Severity::Low,
            "External Embedding Model"@,
            "Using external embedding: "@ + or_empty(embedding),
            "Memory data sent to external API"@,
            "Consider local embeddings for sensitive data"@,
            "memory.embeddingModel"@,
        ),
    ) + present_if(
        search matches Some(s) && s != "local"@ && s != "fuse"@,
        finding_view(
            "memory.external_search"@,
            m,
            Severity::Low,
            "External Memory Search"@,
            "Using external search: "@ + or_empty(search),
            "Memory queries sent to external service"@,
            "Consider local search for privacy"@,
            "memory.searchProvider"@,
        ),
    )
}

impl Scanner for MemoryScanner {
    open spec fn rule(&self, config: OpenClawConfig) -> Seq<FindingView> {
        memory_rule(config)
    }

    open spec fn module_name(&self) -> Seq<char> {
        "memory"@
    }

    fn name(&self) -> (r: &str) {
        "memory"
    }

    fn description(&self) -> &str {
        "Memory and context handling security"
    }

    fn scan(&self, config: &OpenClawConfig) -> (r: Vec<Finding>) {
        let m = self.name();
        let mem = child(Some(&config.raw), "memory");
        let backend = text_of(child(mem, "backend"));
        let retention = text_of(child(mem, "transcriptRetention"));
        let embedding = text_of(child(mem, "embeddingModel"));
        let search = text_of(child(mem, "searchProvider"));
        let mut out: Vec<Finding> = Vec::new();
        add_when(
            &mut out,
            opt_is(&backend, "qmd"),
            Finding::new(
                "memory.qmd_backend",
                m,
                Severity::Medium,
                "QMD Memory Backend",
                "Using QMD (Query-Metadata-Description) memory backend",
                "May have different isolation characteristics than SQLite",
                "Review QMD security properties",
                "memory.backend",
            ),
        );
        let desc = concat3("Transcript retention is '", shown(&retention), "'");
        add_when(
            &mut out,
            opt_is(&retention, "forever") || opt_is(&retention, "infinite"),
            Finding::new(
                "memory.transcript_forever",
                m,
                Severity::Medium,
                "Unlimited Transcript Retention",
                desc.as_str(),
                "Conversation history stored indefinitely",
                "Set to finite period (e.g., '30d')",
                "memory.transcriptRetention",
            ),
        );
        let external_embedding = match &embedding {
            Some(e) => !starts_with_text(e.as_str(), "local:") && !starts_with_text(
                e.as_str(),
                "ollama:",
            ),
            None => false,
        };
        let desc = concat2("Using external embedding: ", shown(&embedding));
        add_when(
            &mut out,
            external_embedding,
            Finding::new(
                "memory.external_embedding",
                m,
                Severity::Low,
                "External Embedding Model",
                desc.as_str(),
                "Memory data sent to external API",
                "Consider local embeddings for sensitive data",
                "memory.embeddingModel",
            ),
        );
        let desc = concat2("Using external search: ", shown(&search));
        add_when(
            &mut out,
            search.is_some() && !opt_is(&search, "local") && !opt_is(&search, "fuse"),
            Finding::new(
                "memory.external_search",
                m,
                Severity::Low,
                "External Memory Search",
                desc.as_str(),
                "Memory queries sent to external service",
                "Consider local search for privacy",
                "memory.searchProvider",
            ),
        );
        assert(views(out@) =~= memory_rule(*config));
        out
    }
}

} // verus!
