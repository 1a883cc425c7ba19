# touhou_shmup

A vertical shoot 'em up in the style of Touhou, built on Bevy. The rules of
the game live in a library whose functions carry contracts proved with Verus;
the Bevy application around it draws, reads the keyboard, moves sprites and
plays sounds, and asks the library for every decision.

## Layout

- `src/` — the verified rules, on plain values:
  - `states.rs`: game and menu states, the pause key, the hitbox key, menu buttons and their looks.
  - `level.rs`: the level director that releases enemy waves as their time
    comes and takes the level through its phases (the waves before the boss,
    its first appearance, the waves after it, and the final fight); the bomb
    and power-up drop timers.
  - `boss.rs`: the boss's phases, attacks, waypoints, health bar and the
    schedule of its diagonal attack.
  - `player.rs`: fire power and fire rate, weapons, hits and invincibility, bombs.
  - `enemy.rs`: enemy kinds, health, damage from shots, dying and drops.
  - `dialogue.rs`: the heroes' conversation.
  - `audio.rs`: the choice of background music, the mute key and the volume buttons.
  - `animation.rs`: sprite frame sequences.
  - `random.rs`: the one call into `rand`, a die roll.
- `tests/` — tests of the library on concrete values.
- `app/` — the Bevy application.

Times in the library are microseconds held in `u64`; hit points, power and
bomb counts are integers.
