use nodespace_core_types::{ContextStrategy, EmbeddingGenerationMetrics, MultiLevelEmbeddings, Node, NodeContext};
use nodespace_core_types::json::JsonValue;

#[test]
fn levels_and_best_embedding() {
    let e = MultiLevelEmbeddings::new(vec![1, 2], ContextStrategy::RuleBased);
    assert_eq!(e.embedding_levels(), 1);
    assert!(!e.is_complete());
    assert_eq!(e.best_embedding(), &vec![1, 2]);
    let e = e.with_contextual(vec![3]);
    assert_eq!(e.embedding_levels(), 2);
    assert_eq!(e.best_embedding(), &vec![3]);
    let e = e.with_hierarchical(vec![4]);
    assert_eq!(e.embedding_levels(), 3);
    assert!(e.is_complete());
    assert_eq!(e.best_embedding(), &vec![4]);
    let mut metrics = EmbeddingGenerationMetrics::default();
    metrics.cache_hits = 2;
    let e = e.with_metrics(metrics);
    assert_eq!(e.generation_metrics.cache_hits, 2);
    assert_eq!(e.context_strategy, ContextStrategy::RuleBased);
}

#[test]
fn context_builders() {
    assert_eq!(ContextStrategy::default(), ContextStrategy::RuleBased);
    let parent = Node::new("text".to_string(), JsonValue::Null);
    let ctx = NodeContext::with_strategy(ContextStrategy::Adaptive)
        .with_parent(parent)
        .with_siblings(vec![Node::new("text".to_string(), JsonValue::Null)])
        .with_mentions(Vec::new())
        .with_related_nodes(vec![Node::new("text".to_string(), JsonValue::Null)]);
    assert_eq!(ctx.strategy, ContextStrategy::Adaptive);
    assert!(ctx.parent.is_some());
    assert_eq!(ctx.siblings.len(), 1);
    assert!(ctx.mentions.is_empty());
    assert_eq!(ctx.related_nodes.len(), 1);
}
