//! Shared types for generating embeddings at several levels of context.

use vstd::prelude::*;
use crate::clock::now_micros;
use crate::node::Node;

verus! {

/// How the context of a contextual embedding is gathered.
#[derive(Debug, Clone, Copy, PartialEq, Eq, Structural)]
pub enum ContextStrategy {
    /// Rules over parent, sibling and mention links.
    RuleBased,
    /// Curation by a language model.
    Phi4Enhanced,
    /// A choice between the two by content.
    Adaptive,
}

impl Default for ContextStrategy {
    fn default() -> (r: Self)
        ensures
            r == ContextStrategy::RuleBased,
    {
        ContextStrategy::RuleBased
    }
}

/// The nodes around a node that its contextual embedding draws on.
#[derive(Debug, Clone)]
pub struct NodeContext {
    pub parent: Option<Node>,
    pub siblings: Vec<Node>,
    /// Nodes that mention this one.
    pub mentions: Vec<Node>,
    /// Nodes related by topic or similarity.
    pub related_nodes: Vec<Node>,
    pub strategy: ContextStrategy,
}

impl Default for NodeContext {
    fn default() -> (r: Self)
        ensures
            r.parent is None,
            r.siblings@.len() == 0,
            r.mentions@.len() == 0,
            r.related_nodes@.len() == 0,
            r.strategy == ContextStrategy::RuleBased,
    {
        NodeContext {
            parent: None,
            siblings: Vec::new(),
            mentions: Vec::new(),
            related_nodes: Vec::new(),
            strategy: ContextStrategy::RuleBased,
        }
    }
}

impl NodeContext {
    /// An empty context with the given strategy.
    pub fn with_strategy(strategy: ContextStrategy) -> (r: Self)
        ensures
            r.parent is None,
            r.siblings@.len() == 0,
            r.mentions@.len() == 0,
            r.related_nodes@.len() == 0,
            r.strategy == strategy,
    {
        let mut context = Self::default();
        context.strategy = strategy;
        context
    }

    /// The context with the given parent.
    pub fn with_parent(self, parent: Node) -> (r: Self)
        ensures
            r == (NodeContext { parent: Some(parent), ..self }),
    {
        let mut context = self;
        context.parent = Some(parent);
        context
    }

    /// The context with the given siblings.
    pub fn with_siblings(self, siblings: Vec<Node>) -> (r: Self)
        ensures
            r == (NodeContext { siblings, ..self }),
    {
        let mut context = self;
        context.siblings = siblings;
        context
    }

    /// The context with the given mentioning nodes.
    pub fn with_mentions(self, mentions: Vec<Node>) -> (r: Self)
        ensures
            r == (NodeContext { mentions, ..self }),
    {
        let mut context = self;
        context.mentions = mentions;
        context
    }

    /// The context with the given related nodes.
    pub fn with_related_nodes(self, related_nodes: Vec<Node>) -> (r: Self)
        ensures
            r == (NodeContext { related_nodes, ..self }),
    {
        let mut context = self;
        context.related_nodes = related_nodes;
        context
    }
}

/// Timings and cache counts of one embedding generation.
#[derive(Debug, Clone, Copy, PartialEq, Eq, Structural)]
pub struct EmbeddingGenerationMetrics {
    pub individual_time_ms: u64,
    pub contextual_time_ms: Option<u64>,
    pub hierarchical_time_ms: Option<u64>,
    pub total_time_ms: u64,
    /// Length of the context text of the contextual embedding.
    pub context_length: Option<usize>,
    /// Depth of the path of the hierarchical embedding.
    pub path_depth: Option<usize>,
    pub cache_hits: u8,
    pub cache_misses: u8,
}

/// Metrics with every timing and count at zero and nothing measured.
pub open spec fn zero_metrics() -> EmbeddingGenerationMetrics {
    EmbeddingGenerationMetrics {
        individual_time_ms: 0,
        contextual_time_ms: None,
        hierarchical_time_ms: None,
        total_time_ms: 0,
        context_length: None,
        path_depth: None,
        cache_hits: 0,
        cache_misses: 0,
    }
}

impl Default for EmbeddingGenerationMetrics {
    fn default() -> (r: Self)
        ensures
            r == zero_metrics(),
    {
        EmbeddingGenerationMetrics {
            individual_time_ms: 0,
            contextual_time_ms: None,
            hierarchical_time_ms: None,
            total_time_ms: 0,
            context_length: None,
            path_depth: None,
            cache_hits: 0,
            cache_misses: 0,
        }
    }
}

/// Embeddings of a node alone, with its context, and with its path from the
/// root.
///
/// Embeddings hold IEEE-754 binary32 bit patterns; `generated_at` is in
/// microseconds since the Unix epoch (UTC).
#[derive(Debug, Clone)]
pub struct MultiLevelEmbeddings {
    pub individual: Vec<u32>,
    pub contextual: Option<Vec<u32>>,
    pub hierarchical: Option<Vec<u32>>,
    pub context_strategy: ContextStrategy,
    pub generated_at: i64,
    pub generation_metrics: EmbeddingGenerationMetrics,
}

/// The number of embedding levels present.
pub open spec fn level_count(e: MultiLevelEmbeddings) -> int {
    1 + (if e.contextual is Some { 1int } else { 0 }) + (if e.hierarchical is Some { 1int } else { 0 })
}

impl MultiLevelEmbeddings {
    /// The individual embedding alone, generated now.
    pub fn new(individual: Vec<u32>, strategy: ContextStrategy) -> (r: Self)
        ensures
            r.individual == individual,
            r.contextual is None,
            r.hierarchical is None,
            r.context_strategy == strategy,
            r.generation_metrics == zero_metrics(),
    {
        MultiLevelEmbeddings {
            individual,
            contextual: None,
            hierarchical: None,
            context_strategy: strategy,
            generated_at: now_micros(),
            generation_metrics: EmbeddingGenerationMetrics::default(),
        }
    }

    /// With the given contextual embedding.
    pub fn with_contextual(self, contextual: Vec<u32>) -> (r: Self)
        ensures
            r == (MultiLevelEmbeddings { contextual: Some(contextual), ..self }),
    {
        let mut e = self;
        e.contextual = Some(contextual);
        e
    }

    /// With the given hierarchical embedding.
    pub fn with_hierarchical(self, hierarchical: Vec<u32>) -> (r: Self)
        ensures
            r == (MultiLevelEmbeddings { hierarchical: Some(hierarchical), ..self }),
    {
        let mut e = self;
        e.hierarchical = Some(hierarchical);
        e
    }

    /// With the given generation metrics.
    pub fn with_metrics(self, metrics: EmbeddingGenerationMetrics) -> (r: Self)
        ensures
            r == (MultiLevelEmbeddings { generation_metrics: metrics, ..self }),
    {
        let mut e = self;
        e.generation_metrics = metrics;
        e
    }

    /// Whether every level is present.
    pub fn is_complete(&self) -> (r: bool)
        ensures
            r == (self.contextual is Some && self.hierarchical is Some),
    {
        self.contextual.is_some() && self.hierarchical.is_some()
    }

    /// The most specific embedding present: hierarchical, else contextual,
    /// else individual.
    pub fn best_embedding(&self) -> (r: &Vec<u32>)
        ensures
            *r == match self.hierarchical {
                Some(h) => h,
                None => match self.contextual {
                    Some(c) => c,
                    None => self.individual,
                },
            },
    {
        match &self.hierarchical {
            Some(h) => h,
            None => match &self.contextual {
                Some(c) => c,
                None => &self.individual,
            },
        }
    }

    /// The number of levels present, from 1 to 3.
    pub fn embedding_levels(&self) -> (r: u8)
        ensures
            r == level_count(*self),
    {
        let mut count: u8 = 1;
        if self.contextual.is_some() {
            count = count + 1;
        }
        if self.hierarchical.is_some() {
            count = count + 1;
        }
        count
    }
}

} // verus!
