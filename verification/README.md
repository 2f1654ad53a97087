# engine

Verified rules-engine pieces for historical Magic formats:

- `database::historical_card_text` — format-scoped Classic Magic text and the
  fail-closed playable-face gate.
- `database::historical_printing` — selected-printing admission (Swedish Old
  School editions and language) before the format's name checks.
- `game::conspiracy` — conspiracy cards and hidden/double agendas in the
  command zone (CR 905, CR 702.106).
- `game::damage_source` — incarnation-pinned reads of damage sources (CR 400.7).
- `manabrew` — viewer, prompt-ID and message-size decisions for ManaBrew
  sessions.

`src/` is checked by Verus; `tests/` exercise it; `app/` holds the serde glue.
