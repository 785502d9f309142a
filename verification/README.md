# cuda_oxide

Verified pieces of a Rust-to-CUDA compiler: which `cuda_arch*` settings a target
produces, which intrinsic records a catalogue accepts, what device operations
are lowered to, and how loop-unroll requests reach the branches that close the
loops.

The library in `src/` is written in Verus. Every function states what it
returns, and the laws that tie functions together are proof functions next to
them.

| Module | What it holds |
|:--|:--|
| `text`, `order` | decimal numbers, joined lists, ascending lists without repetition |
| `arch` | target architectures and their names |
| `cfg` | the settings of a target, and the values that are declared for them |
| `cfg_consistency` | the architecture of the settings against the one that is built |
| `catalog` | records of intrinsics |
| `resolve` | the rules of the `createpolicy` and `tcgen05.ld.red` families |
| `lower` | lowering plans of tensor-memory-access, bulk-copy and `createpolicy` operations |
| `unroll` | the pass that moves unroll hints onto latches |

A lowering plan is plain data: the values to bring into being, in order, and the
inline assembly or call that takes them. `app/` carries plans out on pliron IR,
reads and writes the IR for the unroll pass, and holds the serialised forms of
the cache-policy types.

One function is trusted: `lower::symbol::identifier`, which asks pliron whether a
name is an identifier.
