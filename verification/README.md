# Decomposed recursive tree computation, verified

A fold (`init`, `accumulate`, `finalize`) is kept apart from the tree it
runs over (an edge function) and from the executor that runs it. Each part is
built, transformed and combined on its own; Verus proves what every
transformation does and what the executor computes.

Layout of `src/`:

- `fold`: `Fold` and its combinators (`wrap_*`, `map`, `zipmap`,
  `contramap`, `map_phases`, `product`, `explainer`, `explainer_describe`),
  plus closure-level combinators and phase mappers; `fold::explainer` holds
  the explainer's heap, step and result types.
- `graph`: `Edgy` / treeish edge functions and their combinators (`map`,
  `contramap`, `contramap_or`, `filter`, `treemap`), `Either`,
  `TreeishFromErrEdgy` (trees over valid-or-error nodes), `Graph`,
  `SeedGraph`, `RacoAdapter`.
- `hylo`: `GraphWithFold` and `FoldAdapter`: a graph with a top-level entry,
  a fold and the heap of the top.
- `exec`: `Exec`, the fused executor and its result relation `hylo_rel`
  (over a rank that decreases along the tree unfolded from the root),
  the laws relating transformed folds to their results (`exec::laws`), and the
  funnel executor's building blocks: segmented slab, arenas, the work deque,
  steal-queue segments, continuations and wake strategies.
- `domain`: the `Shared`, `Local` and `Owned` domain markers and their
  executor bindings.

Closures are generic type parameters (Verus has no `dyn Fn`), and an
accumulate phase is `Fn(&H, &R) -> H`: it returns the new heap.
