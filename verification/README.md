# lenra_cli

The Lenra command line interface: it creates Lenra app projects from
templates, generates the Docker files of an app and of its local
environment, runs that environment with Docker Compose, and checks the
running app.

The library under `src/` holds the command line's logic, verified with
Verus:

- `config`, `dofigen`: the configuration file's model, the Dofigen
  descriptor put behind the OpenFaaS watchdog, its JSON text, and the
  Dockerfile and Docker ignore file that Dofigen writes from it;
- `docker_compose`, `docker`: the Compose file of the app and its services,
  its YAML text, the services' images and tags, and the Compose commands'
  arguments;
- `json`: the JSON documents that the library writes as text;
- `matching`, `app_checker`, `cli::check`: the comparison of document values,
  the checkers and rules of a running app, the requests of its routes, and
  the check of its answers against JSON schemas;
- `template`, `git`, `github`, `lenra`: template names, the template search
  and choice, the template data file, and the steps of a project's creation
  and upgrade;
- `cli`: the commands, their context, the tasks they run, and the state
  machines of the terminal, the dev mode and the dev terminal;
- `patterns`, `paths`, `text`, `keyboard_event`, `errors`: regular
  expressions, paths, text helpers, key names and error messages.

`app/` is the program around the library: argument parsing, files,
processes, network requests and the keyboard. `tests/` runs the library on
concrete values.
