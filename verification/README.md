# ternary_resonance

Resonance, coupling and chain-reaction propagation between ternary agents:
continuous amplitudes inside, ternary {-1, 0, +1} at the output.

- `src/` is the Verus-verified library: the decisions of the model that do not
  depend on floating-point arithmetic.
  - `ternary`: quantization of an output to {-1, 0, +1} from its threshold
    comparisons (always ternary; the upper threshold wins).
  - `harmonic`: 1-based harmonic indexing and the choice of the nearest
    harmonic from ordered distance keys (first minimum wins, fundamental when
    the series is empty).
  - `cascade`: which agents of a cascade propagate (increasing indices of the
    agents above threshold), how many are active, and whether it has settled.
- `app/` holds the model types (`Resonance`, `ResonantFrequency`,
  `CouplingStrength`, `ResonanceCascade`, `DampingFactor`, `HarmonicSeries`),
  whose state is `f64`, and calls the library for those decisions.
- `tests/` exercises the library.
