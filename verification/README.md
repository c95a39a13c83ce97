# setui

The configuration and start-up logic of the settings service, verified with
Verus.

- `src/` is the verified library:
  - `base`: the info each setting reports and the hanging-get response made
    from it;
  - `setting_types`: the settings and the controller flags;
  - `collections`: the sets and maps keyed by them;
  - `config`: the configurations of enabled settings and controller flags;
  - `handlers`: which handler serves each setting;
  - `services`: which FIDL services are published;
  - `setup`: the bring-up sequence of the environment, step by step;
  - `environment`: the environment builder, and the plan it hands over.
- `app/` runs the bring-up on a platform, reads configuration files with
  serde, and holds the component manager's entry point.
- `tests/` exercises the library on concrete values.
