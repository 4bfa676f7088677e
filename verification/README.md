# ezpz

A geometric constraint system (points, line segments, circles, arcs and the
constraints between them), split in two:

- `src/` is the verified library. It holds the datums and their variable
  IDs, the `Constraint` enum (generic over the type of its scalar targets
  and of its target angles), which variables each constraint depends on or
  is associated with, the sparsity pattern of its Jacobian rows, how many
  residual equations it has, the inference of undefined tangency sides, and
  the order in which constraints of different priorities are solved.
  Proof functions in `constraints.rs` and `solve.rs` state the laws that tie
  these together.
- `app/` holds the floating-point side over `Constraint<f64, f64>`: plane
  vectors and rotations, each constraint's residual and Jacobian rows, and
  the tolerance test on residuals.
