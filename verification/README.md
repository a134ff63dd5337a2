# mustang

The effect-compositor core of the Exosphere renderer, written in Verus.

`src/` is the verified library: compositor configuration, the scene
scheduler, the classification of effects (scene-native or GPU compute),
the animation state machine and engine, easing-curve names, element
selector matching, and the reading of CSS function arguments
(`blur(10px)`, `scale(1.1, 0.5)`, `translate(10px, 20px)`, ...). The
public functions carry contracts, and the laws that relate several
functions are public proof functions beside them. The exception is the
scene scheduler: its counters are atomics shared between clones, whose
values Verus is given no view of, so its methods carry no contract; its
decision (`apply_decision`) is verified, and its laws (one application per
batch of changes, consistency of the counters) are proved on a model of
the counters, `scheduler::Counters`, not on the atomics themselves.

`app/` is the renderer side, ordinary Rust: everything that computes in
floating point (regions, effect parameters, easing curves, animated
properties, frame progress), the Vello/anyrender drawing of effects, the
lock-protected element tracker, and the Boa JavaScript binding. It calls
the library for every decision that does not need floating point.

`tests/` exercises the library on concrete values.
